//! The driver, the way an embedder runs it.

use punktfunk_core::abr::{stream_ceiling_kbps, Action, Driver, DriverConfig, ProbeReport};
use punktfunk_core::quic::{CHROMA_IDC_420, CHROMA_IDC_444, CODEC_H264, CODEC_HEVC};
use punktfunk_core::stats::Stats;

/// When every session here begins.
const START: u64 = 1_000_000_000_000;

/// Header plus shard, as the reassembler counts a filler packet.
const WIRE: u64 = 1_448;
/// The host chunks filler into AUs; six of them make a 5 Mbps step.
const PACKETS_PER_AU: u64 = 2;
/// The report rides the control stream and lands after the burst.
const REPORT_LAG_MS: u64 = 5;

struct Step {
    target_kbps: u32,
    duration_ms: u64,
    last_filler_ms: u64,
    report_at_ms: u64,
    packets: u64,
    first_ms: u64,
}

/// 1 250 wire bytes a millisecond is 10 Mbps exactly over any window.
const BYTES_PER_MS: u64 = 1_250;

/// The bring-up ramp, driven the way the pump drives it: the step's own
/// filler AUs complete and move `Stats::frames_completed`, the host's
/// report lands after the bytes it describes, and picture arrives as
/// [`Driver::on_au`].
///
/// The counter is the trap this pins. `frames_completed` cannot mean
/// "video has started" — the reassembler completes a filler AU without
/// asking whose index space it is in (`session.rs`), so a 5 Mbps step
/// moves it six times inside 25 ms. Reading it that way ended the ramp
/// one tick after its first step, before that step's own report arrived:
/// 40 of 40 runs on the rig, every profile, `proven_kbps=0`.
#[test]
fn the_ramp_steps_until_video_arrives() {
    let base = START;
    let at = |ms: u64| base + ms * 1_000_000;
    let mut d = Driver::new(
        DriverConfig {
            start_kbps: 20_000,
            ceiling_cap_kbps: None,
            stream_cap_kbps: 200_000,
            refresh_hz: 60,
            codec: CODEC_HEVC,
            bit_depth: 8,
            chroma_format: CHROMA_IDC_420,
            audio_reserved_kbps: 0,
            marks_repeats: true,
            probe: true,
            probe_target_kbps: None,
            ramp: true,
            reads_delivery: true,
            pin_kbps: None,
        },
        base,
    );
    let mut st = Stats::default();
    let mut step: Option<Step> = None;
    let mut asked: Vec<(u64, u32)> = Vec::new();
    let mut opened_at: Option<(u64, u32)> = None;
    let mut link_rate: Option<u32> = None;
    let mut completed_when_asked: Vec<u64> = Vec::new();
    // Video starts once two steps are done — a bring-up the ramp fits in.
    let mut video_from_ms = u64::MAX;
    let mut first_au_ms = u64::MAX;

    for ms in 0..600 {
        // The link hands the filler over while the step runs.
        if let Some(s) = step.as_mut() {
            if ms <= s.last_filler_ms {
                s.packets += 1;
                if s.first_ms == 0 {
                    s.first_ms = ms;
                }
                st.packets_received += 1;
                st.probe_packets_received += 1;
                st.bytes_received += WIRE;
                st.probe_bytes_received += WIRE;
                if s.packets % PACKETS_PER_AU == 0 {
                    st.frames_completed += 1;
                }
            }
        }
        d.on_stats(&st);
        let probing = step.as_ref().is_some_and(|s| ms < s.report_at_ms);
        d.on_probe_active(probing, 25, at(ms));
        if let Some(s) = step.as_ref() {
            if ms >= s.report_at_ms {
                let interval = ms.min(s.last_filler_ms).saturating_sub(s.first_ms).max(1);
                d.on_probe_result(
                    ProbeReport {
                        delivered_bytes: s.packets * WIRE,
                        delivered_packets: s.packets,
                        window_ms: interval as u32,
                        host_duration_ms: s.duration_ms as u32,
                        client_interval_ms: interval as u32,
                        client_interval_us: (interval as u32) * 1_000,
                        host_bytes_sent: u64::from(s.target_kbps) * s.duration_ms / 8,
                        wire_packets_sent: s.packets as u32,
                        send_dropped: 0,
                    },
                    at(ms),
                );
            }
        }
        for action in d.tick(at(ms)).actions {
            match action {
                Action::Probe {
                    target_kbps,
                    duration_ms,
                    ramp,
                } => {
                    assert!(ramp, "a bring-up step must be marked as one");
                    asked.push((ms, target_kbps));
                    completed_when_asked.push(st.frames_completed);
                    step = Some(Step {
                        target_kbps,
                        duration_ms: u64::from(duration_ms),
                        last_filler_ms: ms + u64::from(duration_ms),
                        report_at_ms: ms + u64::from(duration_ms) + REPORT_LAG_MS,
                        packets: 0,
                        first_ms: 0,
                    });
                    if asked.len() == 2 {
                        video_from_ms = ms + u64::from(duration_ms) + 60;
                    }
                }
                Action::SetBitrate(kbps) => opened_at = Some((ms, kbps)),
                Action::LinkRate(kbps) => link_rate = Some(kbps),
                _ => {}
            }
        }
        // Picture, which is the only thing that reaches `on_au`.
        if ms >= video_from_ms && ms % 16 == 0 {
            first_au_ms = first_au_ms.min(ms);
            d.on_au(false);
        }
    }

    assert!(
        asked.len() >= 2,
        "the ramp took {} step(s): {asked:?}",
        asked.len()
    );
    assert_eq!(asked[1].1, asked[0].1 * 2, "each step doubles the rate");
    let first = step_report_time(&asked, 0);
    assert!(
        asked[1].0 > first,
        "step two went out at {} ms, before step one's report at {first} ms",
        asked[1].0
    );
    assert!(
        completed_when_asked[1] > 0,
        "the filler must have completed AUs by then, or this pins nothing"
    );
    let (opened_ms, opened_kbps) = opened_at.expect("the ramp opens the session");
    assert!(
        opened_kbps > 0 && opened_kbps != 20_000,
        "the session opens at what was measured, not the negotiated rate"
    );
    assert!(
        asked.iter().all(|&(ms, _)| ms <= first_au_ms),
        "no step may go out once picture has started: {asked:?}"
    );
    assert!(
        opened_ms <= first_au_ms + 2,
        "the ramp's verdict is spent at once: opened at {opened_ms} ms, first \
         picture at {first_au_ms} ms"
    );
    assert!(
        link_rate.is_some_and(|k| k >= asked[0].1),
        "the ramp's proof goes to the host as a link rate: {link_rate:?}"
    );
}

/// When step `i`'s report reached the client, in the test above.
fn step_report_time(asked: &[(u64, u32)], i: usize) -> u64 {
    asked[i].0 + 25 + 5
}

/// Video that arrives after the startup burst is what the window
/// measures.
///
/// The embedder mirrors a finished probe's state for as long as it
/// stands, so the pump hands the driver the same `ProbeResult` on every
/// iteration — thousands of times a second. Only the first is the
/// measurement: treating the rest as fresh would re-base the byte anchor
/// each time, every window after the burst would read as nothing
/// delivered, and the session would never climb again.
#[test]
fn delivery_after_the_burst_is_what_the_window_reports() {
    let base = START;
    let at = |ms: u64| base + ms * 1_000_000;
    let mut d = Driver::new(
        DriverConfig {
            start_kbps: 20_000,
            ceiling_cap_kbps: None,
            stream_cap_kbps: 200_000,
            refresh_hz: 60,
            codec: CODEC_HEVC,
            bit_depth: 8,
            chroma_format: CHROMA_IDC_420,
            audio_reserved_kbps: 0,
            marks_repeats: true,
            probe: true,
            probe_target_kbps: Some(400_000),
            ramp: false,
            reads_delivery: true,
            pin_kbps: None,
        },
        base,
    );
    let mut st = Stats::default();
    let deliver = |st: &mut Stats, ms: u64| {
        st.bytes_received += BYTES_PER_MS;
        st.packets_received += 1;
        if ms % 16 == 0 {
            st.frames_completed += 1;
        }
    };
    // Two seconds of video, then the burst fires.
    let mut fired = None;
    for ms in 0..=2_000 {
        deliver(&mut st, ms);
        d.on_stats(&st);
        if ms % 16 == 0 {
            d.on_au(false);
        }
        for a in d.tick(at(ms)).actions {
            if let Action::Probe { duration_ms, .. } = a {
                fired = Some((ms, duration_ms));
            }
        }
    }
    let (fired_ms, burst_ms) = fired.expect("the startup probe fires once video flows");
    // The burst: filler in the counters, never in the decoder.
    for ms in fired_ms + 1..=fired_ms + u64::from(burst_ms) {
        deliver(&mut st, ms);
        st.bytes_received += 40_000;
        st.probe_bytes_received += 40_000;
        d.on_stats(&st);
        d.on_probe_active(true, burst_ms, at(ms));
        d.tick(at(ms));
    }
    // The host's report, and then the same report for as long as the
    // embedder's probe state stands.
    let done_ms = fired_ms + u64::from(burst_ms) + 1;
    let report = ProbeReport {
        delivered_bytes: 32_000_000,
        window_ms: burst_ms,
        host_duration_ms: burst_ms,
        client_interval_ms: burst_ms,
        client_interval_us: (burst_ms) * 1_000,
        ..ProbeReport::default()
    };
    let mut windows = Vec::new();
    for ms in done_ms..done_ms + 2_000 {
        deliver(&mut st, ms);
        d.on_stats(&st);
        d.on_probe_active(false, burst_ms, at(ms));
        d.on_probe_result(report, at(ms));
        if ms % 16 == 0 {
            d.on_au(false);
        }
        let tick = d.tick(at(ms));
        if let Some(w) = tick.window {
            windows.push((w.discarded, w.sample.actual_kbps));
        }
    }
    assert!(
        windows.len() >= 2,
        "two seconds must close at least two windows, closed {}",
        windows.len()
    );
    assert!(
        windows[0].0,
        "the window the burst's tail landed in is discarded"
    );
    let (discarded, actual_kbps) = windows[1];
    assert!(!discarded, "the window after the tail is the link's own");
    assert_eq!(
        actual_kbps, 10_000,
        "the window must report the 10 Mbps the stats delivered, not a byte anchor \
         re-based under it"
    );
}

/// Bound cuts an absurd probe ceiling and must not trim a session anyone runs.
#[test]
fn the_stream_bound_cuts_the_absurd_and_spares_the_ordinary() {
    // 1440p120 HEVC Main10 4:2:0: bound must sit under the ~460 Mbps decode knee.
    let field = stream_ceiling_kbps(2560, 1440, 120, CODEC_HEVC, 10, CHROMA_IDC_420);
    assert!(
        field < 657_000,
        "the bound must actually bind on the field case, got {field}"
    );
    assert!(
        field < 460_000,
        "and land under the decode knee this session found, got {field}"
    );

    // 1080p60 HEVC 8-bit: 80–100 Mbps sessions must keep headroom.
    let ordinary = stream_ceiling_kbps(1920, 1080, 60, CODEC_HEVC, 8, CHROMA_IDC_420);
    assert!(
        ordinary >= 90_000,
        "an ordinary 1080p60 session must keep its headroom, got {ordinary}"
    );

    // H.264, 10-bit, and 4:4:4 are each allowed more.
    assert!(
        stream_ceiling_kbps(1920, 1080, 60, CODEC_H264, 8, CHROMA_IDC_420) > ordinary,
        "H.264 is allowed more than HEVC"
    );
    assert!(
        stream_ceiling_kbps(1920, 1080, 60, CODEC_HEVC, 10, CHROMA_IDC_420) > ordinary,
        "10-bit is allowed more than 8-bit"
    );
    assert!(
        stream_ceiling_kbps(1920, 1080, 60, CODEC_HEVC, 8, CHROMA_IDC_444) > ordinary,
        "4:4:4 is allowed more than 4:2:0"
    );
    // Degenerate mode must not bound at zero.
    assert_eq!(
        stream_ceiling_kbps(0, 0, 0, CODEC_HEVC, 8, CHROMA_IDC_420),
        u32::MAX
    );
}
