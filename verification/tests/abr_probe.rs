//! The measurement of the link: the ramp and the burst.

use punktfunk_core::abr::capacity::{
    pinned_ramp_max_kbps, probe_target_kbps, ramp_max_kbps, ramp_start_kbps, wall_ceiling_kbps,
    CapacityProbe,
};
use punktfunk_core::abr::probe::{
    step_ms, Measured, ProbeReport, RampStepEnd, Ramped, NS_PER_MS, PROBE_DELAY, PROBE_MS,
    RAMP_DRAIN_MS, RAMP_START_KBPS, RAMP_STEP_BYTES, RAMP_STEP_MS, RAMP_STEP_TIMEOUT,
};
use punktfunk_core::abr::stream_ceiling_kbps;
use punktfunk_core::quic::{CHROMA_IDC_420, CODEC_H264, CODEC_HEVC};

/// When every session here begins.
const START: u64 = 1_000_000_000_000;

fn report(delivered_bytes: u64, window_ms: u32) -> ProbeReport {
    ProbeReport {
        delivered_bytes,
        window_ms,
        host_duration_ms: 800,
        client_interval_ms: window_ms,
        client_interval_us: (window_ms) * 1_000,
        ..ProbeReport::default()
    }
}

/// A ramp driver: fire steps, answer each with a link of `capacity_kbps`,
/// and return every step's target plus the verdict.
struct Rig {
    p: CapacityProbe,
    now: u64,
    asked: Vec<u32>,
    /// The step `settle` armed while answering the last one.
    pending: Option<(u32, u32)>,
    /// `Stats::frames_completed`, which the filler moves like any other
    /// AU. The ramp must not read it as video.
    completed: u64,
}

impl Rig {
    fn new(stream_cap_kbps: u32, env_kbps: Option<u32>) -> Self {
        let now = START;
        Rig {
            p: CapacityProbe::new(true, true, env_kbps, stream_cap_kbps, now),
            now,
            asked: Vec::new(),
            pending: None,
            completed: 0,
        }
    }

    fn at(&mut self, ms: u64) -> u64 {
        self.now += ms * NS_PER_MS;
        self.now
    }

    /// One step, answered by a link that carries `capacity_kbps` and a
    /// sender that manages `sender_kbps` of what was asked.
    fn step(&mut self, capacity_kbps: u32, sender_kbps: u32) -> Option<Ramped> {
        let now = self.now;
        let completed = self.completed;
        let Some((target, duration_ms)) = self
            .pending
            .take()
            .or_else(|| self.p.poll(now, completed, 0))
        else {
            return self.p.take_ramped(self.now);
        };
        self.asked.push(target);
        let sent_kbps = target.min(sender_kbps);
        let packets = (u64::from(sent_kbps) * u64::from(duration_ms) / 8 / 1_408).max(1);
        // The link stretches the arrivals when it cannot take the rate.
        let interval = (u64::from(duration_ms) * u64::from(sent_kbps)
            / u64::from(capacity_kbps.min(sent_kbps).max(1)))
        .max(1) as u32;
        let r = ProbeReport {
            delivered_bytes: packets * 1_448,
            delivered_packets: packets,
            window_ms: interval,
            host_duration_ms: duration_ms,
            client_interval_ms: interval,
            client_interval_us: (interval) * 1_000,
            host_bytes_sent: u64::from(sent_kbps) * u64::from(duration_ms) / 8,
            wire_packets_sent: packets as u32,
            send_dropped: 0,
        };
        let at = self.at(u64::from(interval));
        // Every filler AU completes, exactly as the session counts it.
        self.completed += packets;
        self.p.on_result(r, at);
        let at = self.at(RAMP_DRAIN_MS + 1);
        let completed = self.completed;
        self.pending = self.p.poll(at, completed, 0);
        self.p.take_ramped(self.now)
    }

    /// Run until the ramp stops, or the step budget runs out.
    fn run(&mut self, capacity_kbps: u32, sender_kbps: u32) -> Ramped {
        for _ in 0..24 {
            if let Some(end) = self.step(capacity_kbps, sender_kbps) {
                return end;
            }
        }
        panic!("the ramp never stopped: {:?}", self.asked);
    }
}

/// The ramp doubles from 5 Mbps and stops at the first step the link
/// cannot carry, with the rate that step actually delivered. The refused
/// rate goes out twice: nothing the slack cannot explain went missing, so
/// one reading of it is as much a reading of the client's scheduler as of
/// the link.
#[test]
fn the_ramp_stops_at_the_first_step_the_link_refuses() {
    let mut rig = Rig::new(46_656, None); // 1080p30 HEVC
    let end = rig.run(12_500, u32::MAX);
    assert_eq!(
        rig.asked,
        [5_000, 10_000, 20_000, 20_000],
        "{:?}",
        rig.asked
    );
    let Ramped::Wall { delivered_kbps } = end else {
        panic!("a 12.5 Mbps link is a wall: {end:?}");
    };
    assert!(
        (11_000..=14_000).contains(&delivered_kbps),
        "the wall read {delivered_kbps} kbps"
    );
    // What it costs the link: four steps of 25 ms.
    let spent = rig.p.ramp_summary().expect("it stopped").asked_bytes;
    assert!(spent < 180_000, "the ramp asked for {spent} bytes");
}

/// A link with room to spare: the ramp stops at the rate that proves what
/// the stream can use and latches no wall.
#[test]
fn the_ramp_stops_at_what_the_stream_can_use() {
    let cap = stream_ceiling_kbps(3840, 2160, 120, CODEC_HEVC, 8, CHROMA_IDC_420);
    let mut rig = Rig::new(cap, None);
    let end = rig.run(10_000_000, u32::MAX);
    let Ramped::NoWall { proven_kbps } = end else {
        panic!("a 10 GbE link has no wall: {end:?}");
    };
    assert!(
        proven_kbps >= cap,
        "{proven_kbps} kbps does not prove a {cap} kbps stream cap"
    );
    assert_eq!(
        *rig.asked.last().expect("steps"),
        ramp_max_kbps(cap, None),
        "the last step is the one that proves the cap"
    );
}

/// A sender that cannot offer the asked rate is not a wall: the link was
/// never asked for it, so nothing about the link was learned.
#[test]
fn a_sender_limit_is_not_a_wall() {
    let mut rig = Rig::new(2_000_000, None);
    let end = rig.run(10_000_000, 60_000);
    let Ramped::NoWall { proven_kbps } = end else {
        panic!("the send path is the limit, not the link: {end:?}");
    };
    assert!(
        proven_kbps >= 50_000,
        "what the sender managed is still proved: {proven_kbps} kbps"
    );
}

/// `PUNKTFUNK_ABR_PROBE_KBPS` is the ramp's maximum — webOS pins 320 Mbps
/// against a 4K165 stream cap of ~1 Gbps.
#[test]
fn the_env_target_caps_the_ramp() {
    let cap = stream_ceiling_kbps(3840, 2160, 165, CODEC_HEVC, 8, CHROMA_IDC_420);
    let mut rig = Rig::new(cap, Some(320_000));
    rig.run(10_000_000, u32::MAX);
    assert_eq!(*rig.asked.last().expect("steps"), 320_000);
    assert!(
        rig.asked.iter().all(|&k| k <= 320_000),
        "{:?} went past the pinned maximum",
        rig.asked
    );
}

/// A pinned ramp climbs past the pin: the proof is what the host paces
/// the stream at. The env cap still binds.
#[test]
fn a_pinned_ramp_climbs_to_eight_times_the_pin() {
    assert_eq!(pinned_ramp_max_kbps(778_000, None), 6_224_000);
    assert_eq!(pinned_ramp_max_kbps(778_000, Some(320_000)), 320_000);
    assert_eq!(pinned_ramp_max_kbps(u32::MAX, None), u32::MAX);
}

/// Video is the end of the ramp, whatever step is in flight: from the
/// first frame nothing the controller does may cost a picture (L4).
#[test]
fn video_ends_the_ramp_where_it_stands() {
    let mut rig = Rig::new(1_000_000, None);
    assert_eq!(rig.step(1_000_000, u32::MAX), None);
    assert!(rig.pending.is_some(), "a second step went out");
    let (now, completed) = (rig.now, rig.completed);
    assert!(
        rig.p.poll(now, completed, 1).is_none(),
        "no step once video is here"
    );
    let Some(Ramped::NoWall { proven_kbps }) = rig.p.take_ramped(rig.now) else {
        panic!("the first frame ends the ramp with what it had")
    };
    assert!(proven_kbps >= 4_000, "step one still counts: {proven_kbps}");
}

/// A step nobody answers ends the ramp on its own deadline, and releases
/// the embedder's probe state so the report tick resumes.
#[test]
fn an_unanswered_step_ends_the_ramp() {
    let mut rig = Rig::new(100_000, None);
    rig.p.poll(rig.now, 0, 0).expect("the first step goes out");
    let at = rig.at(RAMP_STEP_TIMEOUT / NS_PER_MS + 1);
    assert!(rig.p.expired(at), "the pump's probe state must be released");
    assert_eq!(
        rig.p.take_ramped(rig.now),
        Some(Ramped::NoWall { proven_kbps: 0 }),
        "nothing was measured, and nothing is claimed"
    );
}

/// A step the host declined ends the ramp when the answer lands, with what
/// the steps before it proved — not 1.5 s later on the step's deadline.
#[test]
fn a_declined_step_ends_the_ramp_at_once() {
    let mut rig = Rig::new(1_000_000, None);
    assert_eq!(rig.step(1_000_000, u32::MAX), None);
    rig.pending.take().expect("a second step went out");
    let at = rig.at(5);
    rig.p.on_result(ProbeReport::default(), at);
    let Some(Ramped::NoWall { proven_kbps }) = rig.p.take_ramped(at) else {
        panic!("a declined step ends the ramp with what it had")
    };
    assert!(proven_kbps >= 4_000, "step one still counts: {proven_kbps}");
    assert!(
        rig.p.ramp_cut_short(),
        "nothing above step one was measured"
    );
    assert_eq!(
        rig.p.ramp_steps().last().map(|s| s.end),
        Some(RampStepEnd::Declined)
    );
}

/// A step is over when its bytes stop arriving, not when the host says it
/// stopped sending: 25 ms at 1 Gbps is 3 MB and fits the receive buffer,
/// so "all bytes arrived" proves nothing about when.
#[test]
fn a_step_ends_on_the_clients_drain() {
    let mut rig = Rig::new(1_000_000, None);
    let (target, duration_ms) = rig.p.poll(rig.now, 0, 0).expect("the first step");
    let mut r = ProbeReport {
        delivered_packets: 2,
        delivered_bytes: 2 * 1_448,
        window_ms: duration_ms,
        host_duration_ms: duration_ms,
        client_interval_ms: duration_ms,
        client_interval_us: (duration_ms) * 1_000,
        host_bytes_sent: u64::from(target) * u64::from(duration_ms) / 8,
        wire_packets_sent: 8,
        send_dropped: 0,
    };
    // The host's report is in, but the buffer is still filling.
    for _ in 0..4 {
        let at = rig.at(RAMP_DRAIN_MS);
        r.delivered_packets += 2;
        r.delivered_bytes += 2 * 1_448;
        rig.p.on_result(r, at);
        assert!(
            rig.p.poll(at, 0, 0).is_none(),
            "a step whose bytes are still arriving is not over"
        );
    }
    let at = rig.at(RAMP_DRAIN_MS + 1);
    rig.p.on_result(r, at);
    assert!(
        rig.p.poll(at, 0, 0).is_some(),
        "and once they stop, the next step goes out"
    );
}

/// The verdict is read in microseconds, because a millisecond of
/// rounding is 4 % of a 25 ms step and the decision turns on 10 %.
///
/// Two steps that differ by 600 µs — one arrival pattern inside the same
/// millisecond — land on opposite sides of the bar. Four of the rig's 28
/// walls sat in exactly that band, one of them latching 80 Mbps on a
/// 237 Mbps link.
#[test]
fn a_step_is_judged_in_microseconds() {
    for (interval_us, wall) in [(27_000u32, false), (27_600u32, true)] {
        let mut rig = Rig::new(1_026_432, None);
        let (target, duration_ms) = rig.p.poll(rig.now, 0, 0).expect("a step");
        assert_eq!(duration_ms, RAMP_STEP_MS, "the arithmetic below assumes it");
        let r = ProbeReport {
            delivered_bytes: 100 * 1_448,
            delivered_packets: 100,
            window_ms: interval_us / 1_000,
            host_duration_ms: duration_ms,
            client_interval_ms: interval_us / 1_000,
            client_interval_us: interval_us,
            host_bytes_sent: u64::from(target) * u64::from(duration_ms) / 8,
            wire_packets_sent: 100,
            send_dropped: 0,
        };
        // The loss is inside the slack either way, so a refusal is
        // asked again.
        for _ in 0..2 {
            let at = rig.at(u64::from(interval_us) / 1_000);
            rig.p.on_result(r, at);
            let at = rig.at(RAMP_DRAIN_MS + 1);
            rig.p.poll(at, 0, 0);
        }
        assert_eq!(
            matches!(rig.p.take_ramped(rig.now), Some(Ramped::Wall { .. })),
            wall,
            "{interval_us} us of arrivals against a 25 000 us ask"
        );
    }
}

/// A refused step missing a packet or two is the same evidence as one
/// missing none: independent loss explains it and the reading still rests
/// on the arrival times, so the rate goes out once more. A step the link
/// thinned by a tenth or more is a wall on the spot — no ramp may spend a
/// whole session under a policer because one packet went missing.
#[test]
fn a_refusal_missing_a_packet_is_asked_again_and_a_thinned_one_is_not() {
    for (sent, delivered, again) in [
        (24u32, 24u64, true),
        (24, 23, true),
        // The first step's dozen: one packet is 8 % of it.
        (12, 11, true),
        (12, 10, false),
        (60, 53, false),
        (112, 55, false),
    ] {
        let mut rig = Rig::new(46_656, None);
        let (target, duration_ms) = rig.p.poll(rig.now, 0, 0).expect("the first step");
        // Four times the asked span: refused whatever the packet count.
        let interval_ms = duration_ms * 4;
        let r = ProbeReport {
            delivered_bytes: delivered * 1_448,
            delivered_packets: delivered,
            window_ms: interval_ms,
            host_duration_ms: duration_ms,
            client_interval_ms: interval_ms,
            client_interval_us: interval_ms * 1_000,
            host_bytes_sent: u64::from(target) * u64::from(duration_ms) / 8,
            wire_packets_sent: sent,
            send_dropped: 0,
        };
        let at = rig.at(1);
        rig.p.on_result(r, at);
        let at = rig.at(RAMP_DRAIN_MS + 1);
        assert_eq!(
            rig.p.poll(at, 0, 0).is_some(),
            again,
            "{sent} sent, {delivered} delivered"
        );
        assert_eq!(
            matches!(rig.p.take_ramped(rig.now), Some(Ramped::Wall { .. })),
            !again,
            "{sent} sent, {delivered} delivered"
        );
    }
}

/// A short step's implied rate is noise: the rig measured the same 24
/// packets arriving over 6 ms and over 15 ms, 2.5× apart. Whatever the
/// arithmetic says, a step cannot have proved more than it offered — and
/// one step alone must never open a session above the 20 000 it would
/// have opened at with no measurement at all.
#[test]
fn a_step_cannot_prove_more_than_it_asked_for() {
    let mut rig = Rig::new(46_656, None);
    let (target, duration_ms) = rig.p.poll(rig.now, 0, 0).expect("the first step");
    assert_eq!(target, RAMP_START_KBPS);
    // The rig's own numbers: a 5 Mbps step's bytes, all of them, in 6 ms.
    let r = ProbeReport {
        delivered_bytes: 15_624,
        delivered_packets: 24,
        window_ms: 6,
        host_duration_ms: duration_ms,
        client_interval_ms: 6,
        client_interval_us: (6) * 1_000,
        host_bytes_sent: u64::from(target) * u64::from(duration_ms) / 8,
        wire_packets_sent: 24,
        send_dropped: 0,
    };
    let at = rig.at(6);
    rig.p.on_result(r, at);
    let at = rig.at(RAMP_DRAIN_MS + 1);
    rig.p.poll(at, 0, 0);
    // Video arrives before step two can answer: one step is all there is.
    let at = rig.at(1);
    assert!(rig.p.poll(at, 0, 1).is_none());
    let Some(Ramped::NoWall { proven_kbps }) = rig.p.take_ramped(rig.now) else {
        panic!("one step, cut short by video, proves no wall")
    };
    assert_eq!(
        proven_kbps, RAMP_START_KBPS,
        "20 Mbps of arithmetic from a 5 Mbps step"
    );
    assert!(
        ramp_start_kbps(proven_kbps, 46_656) < 20_000,
        "a one-step ramp must not open a session above the unmeasured rate"
    );
}

/// A ramp cut short by video hands the job to the legacy burst: it leaves
/// the wall unmeasured, and a session that reads "no wall seen" as "no
/// wall" climbs into it.
#[test]
fn an_unfinished_ramp_falls_back_to_the_burst() {
    let mut rig = Rig::new(1_026_432, None);
    assert_eq!(rig.step(245_000, u32::MAX), None);
    let now = rig.now;
    assert!(rig.p.poll(now, 0, 1).is_none(), "video ends the ramp");
    assert!(matches!(
        rig.p.take_ramped(now),
        Some(Ramped::NoWall { .. })
    ));
    assert!(
        !rig.p.take_no_evidence(),
        "a burst is coming, so the link is not unmeasurable"
    );
    // Two seconds after video, the burst the ramp could not replace.
    let at = rig.at(PROBE_DELAY / NS_PER_MS);
    let (target, duration_ms) = rig.p.poll(at, 40, 40).expect("the burst fires");
    assert_eq!(duration_ms, PROBE_MS);
    assert_eq!(target, probe_target_kbps(1_026_432));
    // And its answer binds, as an old host's always has.
    assert_eq!(
        rig.p.on_result(report(30_000_000, 800), at),
        Measured::Ceiling {
            ceiling_kbps: 210_000,
            wall_kbps: None
        }
    );
}

/// The legacy burst measures the link the way a ramp step does, so a
/// burst the link refused is the same kind of mark toward the link cap.
/// A burst the link kept up with refused nothing and marks nothing, and
/// neither does one the host could not fill.
#[test]
fn a_burst_the_link_refused_reports_the_wall_it_found() {
    let refused = |delivered_packets: u64, wire_packets_sent: u32, send_dropped: u32| {
        let now = START;
        let mut p = CapacityProbe::new(true, false, Some(400_000), 100_000, now);
        assert!(p.poll(now + PROBE_DELAY, 1, 1).is_some(), "the burst fires");
        let r = ProbeReport {
            delivered_bytes: delivered_packets * 1_448,
            delivered_packets,
            window_ms: 800,
            host_duration_ms: 800,
            client_interval_ms: 800,
            client_interval_us: 800_000,
            host_bytes_sent: 40_000_000,
            wire_packets_sent,
            send_dropped,
        };
        match p.on_result(r, now) {
            Measured::Ceiling { wall_kbps, .. } => wall_kbps,
            other => panic!("the burst must measure: {other:?}"),
        }
    };
    // A tenth of what was offered came back: the link refused the rest.
    assert_eq!(refused(2_000, 20_000, 0), Some(28_960));
    // Everything offered came back: nothing was refused.
    assert_eq!(refused(20_000, 20_000, 0), None);
    // The host never put it on the wire, so the link was never asked.
    assert_eq!(refused(2_000, 20_000, 7), None);
    // One packet is no interval and no rate.
    assert_eq!(refused(1, 20_000, 0), None);
}

/// A ramp that finished has nothing left to ask: no burst is armed, and
/// the picture is never touched.
#[test]
fn a_finished_ramp_never_bursts() {
    let mut rig = Rig::new(46_656, None);
    assert!(matches!(rig.run(12_500, u32::MAX), Ramped::Wall { .. }));
    let at = rig.at(2 * PROBE_DELAY / NS_PER_MS);
    assert!(
        rig.p.poll(at, 40, 40).is_none(),
        "the ramp measured the link; nothing may burst beside the picture"
    );
}

/// A step queued behind someone else's 450 ms of buffer is late, not
/// empty. Judging it on the host's report alone reads a busy link as no
/// link at all, and a newcomer would open on top of its sibling.
#[test]
fn a_step_still_in_the_queue_is_not_a_step_that_delivered_nothing() {
    let mut rig = Rig::new(46_656, None);
    let (target, duration_ms) = rig.p.poll(rig.now, 0, 0).expect("the first step");
    // The host says it is done; not one byte has reached us yet.
    let empty = ProbeReport {
        window_ms: duration_ms,
        host_duration_ms: duration_ms,
        host_bytes_sent: u64::from(target) * u64::from(duration_ms) / 8,
        wire_packets_sent: 11,
        ..ProbeReport::default()
    };
    for _ in 0..8 {
        let at = rig.at(RAMP_DRAIN_MS * 2);
        rig.p.on_result(empty, at);
        assert!(rig.p.poll(at, 0, 0).is_none(), "the step is not over");
        assert_eq!(
            rig.p.take_ramped(rig.now),
            None,
            "and the ramp has no verdict"
        );
    }
    // The queue hands them over, late and stretched. Nothing the slack
    // cannot explain went missing, so the rate is asked once more and
    // refused again: that is the wall.
    let late = ProbeReport {
        delivered_bytes: 11 * 1_448,
        delivered_packets: 11,
        client_interval_ms: duration_ms * 4,
        client_interval_us: (duration_ms * 4) * 1_000,
        ..empty
    };
    for pass in 0..2 {
        let at = rig.at(1);
        rig.p.on_result(late, at);
        let at = rig.at(RAMP_DRAIN_MS + 1);
        let again = rig.p.poll(at, 0, 0);
        assert_eq!(
            again.is_some(),
            pass == 0,
            "the refused rate goes out once more, and only once"
        );
    }
    assert!(
        matches!(rig.p.take_ramped(rig.now), Some(Ramped::Wall { .. })),
        "a rate that took four times its window twice over is a wall"
    );
}

/// The embedder's probe state keeps saying "done" until the next burst
/// overwrites it, so the same report arrives on every iteration. Reading
/// it twice would re-base the byte anchor forever, and the session would
/// never see a window it could climb on.
#[test]
fn a_finished_burst_is_measured_exactly_once() {
    let now = START;
    let mut p = CapacityProbe::new(true, false, Some(400_000), 100_000, now);
    assert_eq!(p.poll(now + PROBE_DELAY, 1, 1), Some((400_000, PROBE_MS)));
    // 1 MB over 800 ms is 10 Mbps; the ceiling keeps 70 % of it.
    assert_eq!(
        p.on_result(report(1_000_000, 800), now),
        Measured::Ceiling {
            ceiling_kbps: 7_000,
            wall_kbps: None
        }
    );
    assert_eq!(
        p.on_result(report(1_000_000, 800), now),
        Measured::NotOurs,
        "the same report must not be read twice"
    );
}

/// A host without `HOST_CAP2_RAMP` gets exactly today's session: no
/// steps, and the 800 ms burst two seconds after video flows.
#[test]
fn an_old_host_still_gets_the_legacy_burst() {
    let now = START;
    let mut p = CapacityProbe::new(true, false, None, 100_000, now);
    assert!(
        p.poll(now, 0, 0).is_none(),
        "nothing goes out during bring-up"
    );
    assert!(
        p.poll(now + PROBE_DELAY, 0, 0).is_none(),
        "nor before video"
    );
    assert_eq!(
        p.poll(now + 2 * PROBE_DELAY, 1, 1),
        Some((probe_target_kbps(100_000), PROBE_MS))
    );
    assert_eq!(
        p.take_ramped(now),
        None,
        "no ramp ran, so none has a verdict"
    );
}

/// `PUNKTFUNK_ABR_PROBE=0` measures nothing, whatever the host serves.
#[test]
fn a_disabled_probe_neither_ramps_nor_bursts() {
    let now = START;
    let mut p = CapacityProbe::new(false, true, None, 100_000, now);
    assert!(p.poll(now, 0, 0).is_none());
    assert!(p.poll(now + PROBE_DELAY, 1, 1).is_none());
    assert_eq!(p.take_ramped(now), None);
    assert!(!p.ramping());
}

/// An embedder speed test finishes too, and its numbers are not the
/// controller's to learn from.
#[test]
fn a_probe_nobody_asked_for_teaches_nothing() {
    let now = START;
    let mut p = CapacityProbe::new(false, false, None, 100_000, now);
    assert_eq!(p.on_result(report(9_000_000, 800), now), Measured::NotOurs);
}

/// Burst must prove the stream cap and no more. Above `cap / 0.7`
/// is discarded by `set_ceiling` (see
/// `abr::tests::the_stream_bound_clamps_a_learned_ceiling_only`).
#[test]
fn the_probe_target_proves_the_stream_cap_without_overshooting_it() {
    for (w, h, hz, codec, depth) in [
        (1280, 720, 60, CODEC_HEVC, 8),
        (1920, 1080, 60, CODEC_H264, 8),
        (2560, 1440, 120, CODEC_HEVC, 8),
        (3840, 2160, 120, CODEC_HEVC, 10),
    ] {
        let cap = stream_ceiling_kbps(w, h, hz, codec, depth, CHROMA_IDC_420);
        let target = probe_target_kbps(cap);
        assert!(
            target.saturating_mul(7) / 10 >= cap,
            "{w}x{h}@{hz}: a {target} kbps burst cannot prove a {cap} kbps cap"
        );
        assert!(
            target <= cap.saturating_mul(2),
            "{w}x{h}@{hz}: {target} kbps chases capacity the clamp discards"
        );
        // And the ramp's own maximum proves the same cap with no margin.
        assert!(u64::from(ramp_max_kbps(cap, None)) * 7 / 10 >= u64::from(cap));
    }
    assert_eq!(probe_target_kbps(u32::MAX), 2_000_000);
    assert_eq!(probe_target_kbps(1_500_000), 2_000_000);
}

/// The byte cap shortens a step before the receive buffer can hide it.
#[test]
fn a_step_is_capped_in_bytes_as_well_as_time() {
    assert_eq!(step_ms(5_000), RAMP_STEP_MS);
    assert_eq!(
        step_ms(5_120_000),
        RAMP_STEP_MS,
        "16 MB is 25 ms at 5.12 Gbps"
    );
    assert_eq!(step_ms(8_000_000), 16);
    for kbps in [5_000u32, 100_000, 960_000, 2_000_000, 8_000_000] {
        let bytes = u64::from(kbps) * u64::from(step_ms(kbps)) / 8;
        assert!(bytes <= RAMP_STEP_BYTES, "{kbps} kbps sends {bytes} bytes");
    }
}

/// A wall licenses a ceiling under what the link actually delivered, and
/// the session opens at the smaller of half that and what the mode wants.
#[test]
fn a_wall_licenses_less_than_it_delivered() {
    assert_eq!(wall_ceiling_kbps(12_500), 8_750);
    assert_eq!(wall_ceiling_kbps(1_000_000), 700_000);

    let cap_1080p60 =
        stream_ceiling_kbps(1920, 1080, 60, CODEC_HEVC, 8, CHROMA_IDC_420);
    // A fat link: the mode's own want binds, at ~0.15 bpp.
    assert_eq!(ramp_start_kbps(400_000, cap_1080p60), cap_1080p60 / 5);
    assert!((18_000..20_000).contains(&ramp_start_kbps(400_000, cap_1080p60)));
    // A 12.5 Mbps wall: half of what was delivered binds instead.
    assert_eq!(ramp_start_kbps(12_500, cap_1080p60), 6_250);
}
