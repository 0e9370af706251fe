//! The rate logic's laws on concrete values.

use punktfunk_core::abr::cap::{doubled_wait, LearnedCap, StandDown, StepProbe};
use punktfunk_core::abr::capacity::{
    probe_target_kbps, ramp_max_kbps, ramp_start_kbps, wall_ceiling_kbps,
};
use punktfunk_core::abr::controller::{BitrateController, MAX_UNACKED};
use punktfunk_core::abr::drain::DrainGuard;
use punktfunk_core::abr::driver::{
    milli_bits_per_pixel, pixel_rate, stream_ceiling_kbps, Action, Driver, DriverConfig,
};
use punktfunk_core::abr::encoder::EncoderLoad;
use punktfunk_core::abr::growth::{climb_step, delivered_the_rate, Proven};
use punktfunk_core::abr::host::HostLimits;
use punktfunk_core::abr::norms::RateNorms;
use punktfunk_core::abr::probe::{step_ms, ProbeReport, Ramp, RampStepEnd, Ramped};
use punktfunk_core::abr::sample::{WindowActivity, WindowSample, WINDOW};
use punktfunk_core::abr::verdict::RollingMin;
use punktfunk_core::abr::wall::LinkWall;
use punktfunk_core::quic::{AckReason, CHROMA_IDC_420, CODEC_HEVC};
use punktfunk_core::stats::{window_loss_ppm, Stats};

const START: u64 = 1_000_000_000_000;

fn bad(now: u64) -> WindowSample {
    WindowSample {
        dropped: 4,
        loss_ppm: 200_000,
        actual_kbps: 5_000,
        flushed: true,
        ..WindowSample::at(now)
    }
}

#[test]
fn off_is_off() {
    let mut c = BitrateController::new(0, None);
    c.set_ceiling(100_000);
    c.note_measured_wall(50_000, 40_000);
    c.note_link_mark(9_000);
    c.on_ack(20_000, None);
    assert!(!c.enabled);
    assert_eq!(c.start_from_measurement(50_000, START), None);
    assert_eq!(c.on_window(&bad(START)), None);
}

#[test]
fn a_pinned_host_turns_it_off() {
    let mut c = BitrateController::new(20_000, None);
    assert!(c.enabled);
    c.on_ack(20_000, Some(AckReason::Pinned));
    assert!(!c.enabled);
    assert_eq!(c.on_window(&bad(START)), None);
}

#[test]
fn a_window_asks_and_an_ack_moves() {
    let mut c = BitrateController::new(20_000, None);
    let ask = c.on_window(&bad(START)).expect("a severe window is answered");
    assert!(ask < 20_000);
    assert_eq!(c.current_kbps, 20_000);
    assert_eq!(c.asks.last_requested_kbps, Some(ask));
    assert_eq!(c.asks.unacked, 1);
    c.on_ack(ask, None);
    assert_eq!(c.current_kbps, ask);
    assert_eq!(c.asks.unacked, 0);
}

#[test]
fn a_silent_host_is_asked_no_more_than_three_times() {
    let mut c = BitrateController::new(20_000, None);
    let mut asked = 0;
    for i in 0..200u64 {
        if c.on_window(&bad(START + i * 4 * WINDOW)).is_some() {
            asked += 1;
        }
    }
    assert_eq!(asked, MAX_UNACKED);
}

#[test]
fn a_share_lowers_the_rate_and_no_cap() {
    let mut c = BitrateController::new(20_000, None);
    let (host, link) = (c.host.cap, c.link.cap);
    c.on_ack(12_000, Some(AckReason::Governor));
    assert_eq!(c.current_kbps, 12_000);
    assert_eq!((c.host.cap, c.link.cap), (host, link));
    assert!(c.effective_ceiling() <= 12_000);
    c.on_ack(18_000, Some(AckReason::Governor));
    assert_eq!(c.current_kbps, 12_000, "a share never raises the rate");
}

#[test]
fn a_busy_host_is_no_limit() {
    let mut c = BitrateController::new(20_000, None);
    let cap = c.host.cap;
    c.on_ack(15_000, Some(AckReason::Cadence));
    assert_eq!(c.host.cap, cap);
    assert!(c.host.cadence_hold.disarmed());
}

#[test]
fn the_operator_bounds_every_ceiling() {
    let mut c = BitrateController::new(20_000, Some(50_000));
    c.set_ceiling(500_000);
    assert_eq!(c.ceiling.kbps, 50_000);
    c.no_link_evidence(500_000);
    assert!(c.ceiling.kbps <= 50_000);
    c.set_stream_cap(40_000);
    assert!(c.ceiling.kbps <= 50_000);
}

#[test]
fn two_identical_short_answers_are_a_limit() {
    let mut h = HostLimits::new();
    h.answer(30_000, 60_000, 2_000);
    assert_eq!(h.cap.kbps(), None);
    h.answer(30_000, 45_000, 2_000);
    assert_eq!(h.cap.kbps(), Some(30_000));
}

#[test]
fn a_confirmed_cap_waits_longer() {
    let mut cap = LearnedCap::new();
    assert_eq!(cap.kbps(), None);
    cap.latch(30_000, 2_000);
    let first = cap.reprobe_after();
    cap.latch(29_000, 2_000);
    assert_eq!(cap.kbps(), Some(29_000));
    assert_eq!(cap.reprobe_after(), doubled_wait(first));
    cap.latch(1_000, 2_000);
    assert_eq!(cap.kbps(), Some(2_000), "never under the floor");
}

#[test]
fn a_clock_only_lifts() {
    let mut cap = LearnedCap::new();
    cap.latch(30_000, 2_000);
    for _ in 0..500 {
        let before = cap.kbps().unwrap();
        cap.on_window(false, false, before, 60_000);
        let after = cap.kbps().unwrap();
        assert!(before <= after && after <= 60_000);
    }
    assert!(cap.kbps().unwrap() > 30_000);
}

#[test]
fn two_agreeing_marks_are_a_wall() {
    let mut wall = LinkWall::new();
    wall.mark(40_000, 2_000);
    assert_eq!(wall.cap.kbps(), None);
    assert!(wall.agrees(41_000));
    wall.mark(41_000, 2_000);
    assert_eq!(wall.cap.kbps(), Some(LinkWall::hold_under(41_000)));
    assert_eq!(LinkWall::hold_under(40_000), 36_000);
}

#[test]
fn a_notch_the_encoder_ignores_is_given_back() {
    let mut load = EncoderLoad::new();
    let next = load.next_notch(Some(20_000), 40_000, 2_000).expect("room to notch");
    assert!(next < 40_000);
    load.take_notch(20_000, 40_000);
    assert!(load.probe.is_some());
    assert_eq!(load.next_notch(Some(20_000), 2_000, 2_000), None, "at the floor");
}

#[test]
fn a_step_climbs_within_its_cap() {
    for cap in [20_001, 21_000, 30_000, 100_000] {
        for slow in [false, true] {
            let step = climb_step(20_000, cap, slow);
            assert!(20_000 < step && step <= cap);
        }
    }
    assert!(delivered_the_rate(9_000, 10_000));
    assert!(!delivered_the_rate(8_999, 10_000));
    let mut p = Proven::new();
    p.note(9_000);
    p.note(7_000);
    assert_eq!(p.mark(), 9_000);
    p.clear();
    assert_eq!(p.mark(), 0);
}

#[test]
fn a_rolling_floor_is_under_its_last_reading() {
    let mut r = RollingMin::new();
    for us in [9_000, 7_000, 12_000, 3_000, 50_000] {
        r.note(us);
        if let Some(floor) = r.floor() {
            assert!(floor <= us);
        }
    }
}

#[test]
fn a_rate_move_forgets_the_delivery_norm() {
    let mut n = RateNorms::new();
    for i in 0..40 {
        n.note(&WindowSample {
            actual_kbps: 10_000,
            activity: WindowActivity::Active(45),
            ..WindowSample::at(START + i * WINDOW)
        });
    }
    assert_eq!(n.delivery_reference(), Some(10_000));
    let frames = n.usual_frames();
    n.forget();
    assert_eq!(n.delivery_reference(), None);
    assert_eq!(n.usual_frames(), frames);
}

#[test]
fn a_guard_spends_its_budget() {
    let mut g = DrainGuard::armed(5_000);
    let budget = g.windows;
    let w = WindowSample::at(START);
    let mut held = 0;
    while g.note(&w) {
        held += 1;
        assert!(held <= budget);
    }
    assert_eq!(g.windows, 0);
    assert!(!DrainGuard::new().note(&w));
}

#[test]
fn a_stand_down_waits_and_comes_back() {
    let mut s = StandDown::new();
    assert!(!s.disarmed());
    s.disarm();
    assert!(s.disarmed());
    let wait = s.reprobe_after();
    let mut armed = false;
    for _ in 0..wait {
        armed = s.note_clean();
    }
    assert!(armed && !s.disarmed());
}

#[test]
fn a_step_probe_averages_before_it_answers() {
    let mut p = StepProbe::new(20_000, 8_000);
    assert_eq!(p.note(Some(6_000)), None);
    assert_eq!(p.note(None), None);
    assert_eq!(p.note(Some(8_000)), None);
    assert_eq!(p.note(Some(10_000)), Some(8_000));
}

#[test]
fn a_ramp_step_is_capped_in_time_and_bytes() {
    for kbps in [1, 10_000, 1_000_000, 4_000_000] {
        let ms = step_ms(kbps);
        assert!(ms >= 1);
        assert!(u64::from(kbps) * u64::from(ms) / 8 <= 16_000_000);
    }
}

#[test]
fn the_first_stop_wins() {
    let mut r = Ramp::new(1_000_000, START);
    r.stop(Ramped::NoWall { proven_kbps: 7 }, START);
    let outcome = r.outcome;
    r.stop(Ramped::NoWall { proven_kbps: 9 }, START + 1);
    assert_eq!(r.outcome, outcome);
    assert!(r.done);
}

#[test]
fn a_measurement_holds_back() {
    assert!(wall_ceiling_kbps(100_000) < 100_000);
    assert!(ramp_start_kbps(100_000, 1_000_000) <= 50_000);
    assert!(u64::from(probe_target_kbps(300_000)) * 7 / 10 >= 300_000);
    assert!(probe_target_kbps(300_000) <= 600_000);
    assert!(u64::from(ramp_max_kbps(300_000, None)) * 7 / 10 >= 300_000);
}

fn config() -> DriverConfig {
    DriverConfig {
        start_kbps: 20_000,
        ceiling_cap_kbps: None,
        stream_cap_kbps: 300_000,
        refresh_hz: 60,
        codec: CODEC_HEVC,
        bit_depth: 8,
        chroma_format: CHROMA_IDC_420,
        audio_reserved_kbps: 0,
        marks_repeats: false,
        reads_delivery: false,
        probe: false,
        probe_target_kbps: None,
        ramp: false,
        pin_kbps: None,
    }
}

fn received(bytes: u64) -> Stats {
    Stats {
        packets_received: bytes / 1_200,
        bytes_received: bytes,
        ..Stats::default()
    }
}

#[test]
fn a_standing_window_is_reported() {
    let mut d = Driver::new(config(), START);
    d.on_stats(&received(0));
    d.on_stats(&received(1_200_000));
    assert!(d.tick(START + WINDOW - 1).window.is_none());
    let t = d.tick(START + WINDOW);
    assert!(t.actions.contains(&Action::Loss(0)));
    let w = t.window.expect("the window is over");
    assert!(w.loss_free && !w.discarded);
}

#[test]
fn a_discarded_window_sends_nothing() {
    let mut d = Driver::new(config(), START);
    d.on_stats(&received(1_200_000));
    d.discard_window();
    let t = d.tick(START + WINDOW);
    assert!(t.actions.is_empty());
    let w = t.window.expect("the window is over");
    assert!(w.discarded && !w.loss_free);
}

#[test]
fn a_burst_holds_the_report_back() {
    let mut d = Driver::new(config(), START);
    d.on_probe_active(true, 500, START + 1);
    assert!(d.tick(START + WINDOW).window.is_none());
}

#[test]
fn a_stream_ceiling_is_pixels_times_bits() {
    assert_eq!(pixel_rate(1920, 1080, 60), 124_416_000);
    let plain = milli_bits_per_pixel(CODEC_HEVC, 8, CHROMA_IDC_420);
    let ten = milli_bits_per_pixel(CODEC_HEVC, 10, CHROMA_IDC_420);
    assert!(ten > plain);
    assert!(
        stream_ceiling_kbps(1920, 1080, 60, CODEC_HEVC, 10, CHROMA_IDC_420)
            >= stream_ceiling_kbps(1920, 1080, 60, CODEC_HEVC, 8, CHROMA_IDC_420)
    );
    assert_eq!(
        stream_ceiling_kbps(0, 1080, 60, CODEC_HEVC, 8, CHROMA_IDC_420),
        u32::MAX
    );
}

#[test]
fn loss_is_a_share_of_shards() {
    assert_eq!(window_loss_ppm(0, 100, 0), 0);
    assert_eq!(window_loss_ppm(1, 999, 0), 1_000);
    assert_eq!(window_loss_ppm(0, 999, 2), 1_000, "a lost frame lost a shard");
    assert_eq!(window_loss_ppm(5, 0, 0), 1_000_000);
}

const MS: u64 = 1_000_000;
const SEC: u64 = 1_000_000_000;

fn ramp_config() -> DriverConfig {
    DriverConfig { probe: true, ramp: true, ..config() }
}

/// A report of a step that the link carried whole.
fn carried(target_kbps: u32, duration_ms: u32) -> ProbeReport {
    let sent = u64::from(target_kbps) * u64::from(duration_ms) / 8;
    let packets = (sent / 1_408).max(2);
    ProbeReport {
        delivered_bytes: packets * 1_448,
        delivered_packets: packets,
        window_ms: duration_ms,
        host_duration_ms: duration_ms,
        client_interval_ms: duration_ms,
        client_interval_us: duration_ms * 1_000 * (packets as u32 - 1) / packets as u32,
        host_bytes_sent: sent,
        wire_packets_sent: packets as u32,
        send_dropped: 0,
    }
}

/// Run the ramp for `steps` carried steps and then, where `thin` is set, one
/// that the link dropped half of.
fn ramped(steps: usize, thin: bool) -> (Driver, u64) {
    let mut d = Driver::new(ramp_config(), START);
    let mut now = START;
    let mut done = 0;
    let mut ask = d.tick(now).actions;
    while done < steps + usize::from(thin) {
        let Some((target, ms)) = ask.iter().find_map(|a| match *a {
            Action::Probe { target_kbps, duration_ms, ramp } => {
                assert!(ramp);
                Some((target_kbps, duration_ms))
            }
            _ => None,
        }) else {
            break;
        };
        let mut r = carried(target, ms);
        if thin && done == steps {
            r.delivered_packets /= 2;
            r.delivered_bytes /= 2;
        }
        now += u64::from(ms) * MS;
        d.on_probe_result(r, now);
        now += 25 * MS;
        ask = d.tick(now).actions;
        done += 1;
    }
    (d, now)
}

#[test]
fn a_ramps_history_doubles_and_only_grows() {
    let (short, _) = ramped(2, false);
    let (long, _) = ramped(4, false);
    let targets = |d: &Driver| d.ramp_steps().iter().map(|s| s.target_kbps).collect::<Vec<_>>();
    assert_eq!(targets(&short), vec![5_000, 10_000]);
    assert_eq!(targets(&long), vec![5_000, 10_000, 20_000, 40_000]);
    assert_eq!(short.ramp_steps(), &long.ramp_steps()[..2]);
    assert!(long.ramp_steps().iter().all(|s| !s.repeat && s.end == RampStepEnd::Continued));
    assert_eq!(long.ramp_outcome(), None);
}

#[test]
fn an_outcome_stands() {
    let (mut d, now) = ramped(2, true);
    let s = d.ramp_outcome().expect("the thinned step is a wall");
    let last = *d.ramp_steps().last().expect("steps settled");
    assert!(s.wall && s.steps as usize >= d.ramp_steps().len());
    assert_eq!(last.end, RampStepEnd::Wall { delivered_kbps: s.proven_kbps });
    d.on_probe_dropped(now + SEC);
    d.on_probe_result(carried(80_000, 25), now + 2 * SEC);
    d.on_au(false);
    let sent = d.tick(now + 3 * SEC).actions;
    assert!(!sent.iter().any(|a| matches!(a, Action::Probe { ramp: true, .. })));
    assert_eq!(d.ramp_outcome(), Some(s));
    assert_eq!(d.ramp_steps().last(), Some(&last));
}

#[test]
fn an_ack_moves_the_rate_at_the_close() {
    let mut d = Driver::new(config(), START);
    let before = d.target_kbps();
    d.on_ack(17_000, None);
    assert_eq!(d.target_kbps(), before);
    let mut now = START;
    loop {
        now += 10 * MS;
        let closed = d.tick(now).window.is_some();
        if closed {
            break;
        }
        assert_eq!(d.target_kbps(), before, "no window has closed");
    }
    assert_eq!(d.target_kbps(), 17_000);
    d.on_ack(16_000, None);
    d.discard_window();
    let tick = d.tick(now + 2 * SEC);
    assert!(tick.window.expect("it closes").discarded);
    assert_eq!(d.target_kbps(), 16_000, "a discarded window applies it too");
}

#[test]
fn dropped_requests_never_switch_it_off() {
    let mut d = Driver::new(config(), START);
    let mut now = START;
    let mut st = Stats::default();
    let mut dropped = 0;
    for _ in 0..200 {
        now += WINDOW;
        st.frames_dropped += 4;
        st.packets_received += 100;
        st.fec_recovered_shards += 50;
        d.on_stats(&st);
        d.on_flush();
        for a in d.tick(now).actions {
            if let Action::SetBitrate(kbps) = a {
                let rate = d.target_kbps();
                d.on_request_dropped(kbps);
                assert_eq!(d.target_kbps(), rate);
                dropped += 1;
            }
        }
    }
    assert!(dropped > MAX_UNACKED, "it went on asking: {dropped}");
    assert!(d.abr.enabled);
    let short = d.abr.host.short_acks;
    d.on_ack(3_000, None);
    d.tick(now + WINDOW);
    assert_eq!(d.abr.host.short_acks, short);
}

#[test]
fn a_burst_after_a_cut_ramp_asks_for_a_keyframe() {
    let mut d = Driver::new(ramp_config(), START);
    assert!(d.tick(START).actions.iter().any(|a| matches!(a, Action::Probe { ramp: true, .. })));
    // The step in flight goes active and ends without a frame: nothing to ask.
    d.on_probe_active(true, 25, START + MS);
    d.on_au(false);
    d.tick(START + 2 * MS);
    d.on_probe_active(false, 0, START + 30 * MS);
    assert!(!d.tick(START + 31 * MS).actions.contains(&Action::Keyframe));
    // Video flows, and the burst that replaces the ramp fires beside it.
    let st = Stats { frames_completed: 40, ..Stats::default() };
    d.on_stats(&st);
    let at = START + 3 * SEC;
    assert!(d.tick(at).actions.iter().any(|a| matches!(a, Action::Probe { ramp: false, .. })));
    d.on_probe_active(true, 800, at + MS);
    d.tick(at + 2 * MS);
    d.on_probe_active(false, 800, at + 900 * MS);
    let sent = d.tick(at + 901 * MS).actions;
    assert_eq!(sent.iter().filter(|a| **a == Action::Keyframe).count(), 1);
    // One that a frame survived asks for none.
    d.on_probe_active(true, 800, at + 2 * SEC);
    d.on_stats(&Stats { frames_completed: 41, ..st });
    d.on_probe_active(false, 800, at + 3 * SEC);
    assert!(!d.tick(at + 3 * SEC + MS).actions.contains(&Action::Keyframe));
}

fn keyframes(actions: &[Action]) -> usize {
    actions.iter().filter(|a| **a == Action::Keyframe).count()
}

#[test]
fn a_lost_picture_is_asked_for_once() {
    let st = Stats { frames_completed: 40, ..Stats::default() };
    let mut d = Driver::new(config(), START);
    d.on_stats(&st);
    // No frame came through: one ask, and no more however often it is over.
    d.on_probe_active(true, 800, START + MS);
    assert_eq!(keyframes(&d.tick(START + 2 * MS).actions), 0);
    d.on_probe_active(false, 800, START + 800 * MS);
    d.on_probe_active(false, 800, START + 801 * MS);
    assert_eq!(keyframes(&d.tick(START + 802 * MS).actions), 1);
    d.on_probe_active(false, 800, START + 803 * MS);
    assert_eq!(keyframes(&d.tick(START + 804 * MS).actions), 0);
    // A frame came through: nothing to ask for.
    d.on_probe_active(true, 800, START + SEC);
    d.on_stats(&Stats { frames_completed: 41, ..st });
    d.on_probe_active(false, 800, START + 2 * SEC);
    d.on_probe_active(false, 800, START + 2 * SEC);
    assert_eq!(keyframes(&d.tick(START + 2 * SEC + MS).actions), 0);
}

#[test]
fn a_gap_costs_one_window() {
    let cfg = DriverConfig { reads_delivery: true, ..config() };
    let mut d = Driver::new(cfg, START);
    d.on_stats(&received(0));
    d.on_pipeline_gap(120);
    // Whatever happens before the close leaves the mark.
    d.on_stats(&received(1_200_000));
    d.on_au(false);
    d.on_ack(19_000, None);
    d.on_mode_switch(1920, 1080, 60);
    assert!(d.tick(START + WINDOW - 1).window.is_none());
    let t = d.tick(START + WINDOW);
    let w = t.window.expect("the window is over");
    assert!(w.discarded && !w.loss_free);
    assert!(t.actions.is_empty());
    // The next one is judged again.
    d.on_stats(&received(2_400_000));
    let t = d.tick(START + 2 * WINDOW);
    let w = t.window.expect("the window is over");
    assert!(!w.discarded && w.loss_free);
    assert!(t.actions.contains(&Action::Loss(0)));
    assert!(t.actions.contains(&Action::Delivery(2_000)));
}
