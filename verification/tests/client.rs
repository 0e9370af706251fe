use punktfunk_core::client::clipboard::{ClipEventCore, ClipKind, XferIds};
use punktfunk_core::client::control::{
    mic_sent, plane_error, Control, CtrlReply, CtrlRequest, CtrlStep, Empty, Offered,
};
use punktfunk_core::client::demux::{
    newer, plane_of, seq_newer, AudioIn, Demux, Plane, RumbleFeed, RumbleIn, RumbleLease,
};
use punktfunk_core::client::frame_channel::{
    FrameChannel, FramePop, LatencyAcc, StandingLatAction, StandingLatency, FLUSH_COOLDOWN,
    FLUSH_LATENCY, FRAME_QUEUE_HARD_CAP, PREROLL_AUS, STANDING_LAT_MAX_BLEEDS,
    STANDING_LAT_THRESH_NS, STANDING_LAT_WINDOWS,
};
use punktfunk_core::client::link::{
    adaptive_start, advertised_caps, close_code, connect_error, failure_status,
    pairing_close_code, register_thread, ConnectFailure, PairAction, PairEvent, PairState,
};
use punktfunk_core::client::pads::{PadInput, Pads, Route};
use punktfunk_core::client::planes::{CursorShape, ShapeError, ShapeQueue, CURSOR_SHAPE_QUEUE};
use punktfunk_core::client::pump::{Arrival, FrameStep, Pump, WindowReport};
use punktfunk_core::client::recovery::{
    RecoveryAsk, RfiRecovery, RFI_MAX_RANGE, RFI_THROTTLE_NS,
};
use punktfunk_core::client::speedtest::{Arrivals, ProbeResult, ProbeState};
use punktfunk_core::config::Mode;
use punktfunk_core::error::PunktfunkStatus;
use punktfunk_core::quic::{AckReason, QUIT_CLOSE_CODE};
use punktfunk_core::session::{Frame, FramePart};
use punktfunk_core::stats::Stats;
use punktfunk_core::text::join_host_port;

const MS: u64 = 1_000_000;
const SEC: u64 = 1_000_000_000;

// Addresses.

#[test]
fn brackets_bare_ipv6_only() {
    assert_eq!(join_host_port("192.168.1.9", 4770), "192.168.1.9:4770");
    assert_eq!(join_host_port("myhost", 4770), "myhost:4770");
    assert_eq!(join_host_port("fd00::1", 4770), "[fd00::1]:4770");
    assert_eq!(join_host_port("[fd00::1]", 4770), "[fd00::1]:4770");
}

#[test]
fn ports_are_written_out() {
    assert_eq!(join_host_port("h", 0), "h:0");
    assert_eq!(join_host_port("h", 65535), "h:65535");
    assert_eq!(join_host_port("", 10), ":10");
}

// Loss recovery.

#[test]
fn first_frame_arms_without_a_gap() {
    let mut r = RfiRecovery::default();
    assert_eq!(r.observe(100, 0), (false, RecoveryAsk::Nothing));
    assert_eq!(r.next_expected, Some(101));
}

#[test]
fn contiguous_frames_never_gap() {
    let mut r = RfiRecovery::default();
    r.observe(100, 0);
    assert_eq!(r.observe(101, 0), (false, RecoveryAsk::Nothing));
    assert_eq!(r.observe(102, 0), (false, RecoveryAsk::Nothing));
    assert_eq!(r.observe(103, 0), (false, RecoveryAsk::Nothing));
    assert_eq!(r.next_expected, Some(104));
}

#[test]
fn forward_gap_reports_the_exact_lost_range() {
    let mut r = RfiRecovery::default();
    r.observe(100, 0);
    assert_eq!(r.observe(105, 0), (true, RecoveryAsk::Rfi(101, 104)));
    assert_eq!(r.next_expected, Some(106));
}

#[test]
fn single_frame_drop_names_a_unit_range() {
    let mut r = RfiRecovery::default();
    r.observe(100, 0);
    assert_eq!(r.observe(102, 0), (true, RecoveryAsk::Rfi(101, 101)));
}

#[test]
fn throttle_suppresses_bursts_then_re_opens() {
    let mut r = RfiRecovery::default();
    let t0 = SEC;
    r.observe(100, t0);
    assert_eq!(r.observe(105, t0), (true, RecoveryAsk::Rfi(101, 104)));
    assert_eq!(r.observe(110, t0 + 50 * MS), (true, RecoveryAsk::Nothing));
    assert_eq!(
        r.observe(120, t0 + RFI_THROTTLE_NS + MS),
        (true, RecoveryAsk::Rfi(111, 119))
    );
}

#[test]
fn stragglers_behind_the_delivery_point_are_ignored() {
    let mut r = RfiRecovery::default();
    r.observe(100, 0);
    r.observe(105, 0);
    assert_eq!(r.observe(103, 0), (false, RecoveryAsk::Nothing));
    assert_eq!(r.next_expected, Some(106));
}

#[test]
fn wraparound_is_contiguous_across_u32_max() {
    let mut r = RfiRecovery::default();
    r.observe(u32::MAX - 1, 0);
    assert_eq!(r.observe(u32::MAX, 0), (false, RecoveryAsk::Nothing));
    assert_eq!(r.next_expected, Some(0));
    assert_eq!(r.observe(0, 0), (false, RecoveryAsk::Nothing));
    assert_eq!(r.next_expected, Some(1));
}

#[test]
fn gap_range_wraps_across_u32_max() {
    let mut r = RfiRecovery::default();
    r.observe(u32::MAX - 1, 0);
    assert_eq!(r.observe(1, 0), (true, RecoveryAsk::Rfi(u32::MAX, 0)));
    assert_eq!(r.next_expected, Some(2));
}

#[test]
fn huge_gap_resyncs_via_keyframe_not_rfi() {
    let mut r = RfiRecovery::default();
    r.observe(100, 0);
    let jump = 100 + RFI_MAX_RANGE + 2;
    assert_eq!(r.observe(jump, 0), (true, RecoveryAsk::Keyframe));
    assert_eq!(r.next_expected, Some(jump + 1));
    assert_eq!(r.observe(jump + 1, 0), (false, RecoveryAsk::Nothing));
    assert_eq!(r.observe(jump + 10, MS), (true, RecoveryAsk::Nothing));
}

#[test]
fn the_widest_range_is_still_named() {
    let mut r = RfiRecovery::default();
    r.observe(100, 0);
    assert_eq!(
        r.observe(101 + RFI_MAX_RANGE, 0),
        (true, RecoveryAsk::Rfi(101, 100 + RFI_MAX_RANGE))
    );
}

// The hand-off queue.

fn frame(i: u32) -> Frame {
    Frame {
        data: vec![i as u8],
        frame_index: i,
        pts_ns: i as u64,
        flags: 0,
        complete: true,
        part: None,
        received_ns: 0,
    }
}

fn popped(ch: &mut FrameChannel) -> Option<u32> {
    match ch.pop() {
        FramePop::Frame(f) => Some(f.frame_index),
        _ => None,
    }
}

#[test]
fn client_fifo_order_and_depth() {
    let mut ch = FrameChannel::new();
    assert_eq!(ch.depth(), 0);
    ch.push(frame(1));
    ch.push(frame(2));
    assert_eq!(ch.depth(), 2);
    assert_eq!(popped(&mut ch), Some(1));
    assert_eq!(popped(&mut ch), Some(2));
    assert_eq!(ch.depth(), 0);
}

#[test]
fn client_empty_pop_times_out_not_closed() {
    let mut ch = FrameChannel::new();
    assert!(matches!(ch.pop(), FramePop::Timeout));
}

#[test]
fn client_clear_drops_backlog_and_reports_count() {
    let mut ch = FrameChannel::new();
    for i in 0..5 {
        ch.push(frame(i));
    }
    assert_eq!(ch.clear(), 5);
    assert_eq!(ch.depth(), 0);
    assert!(matches!(ch.pop(), FramePop::Timeout));
}

#[test]
fn client_close_after_drain_reports_closed() {
    let mut ch = FrameChannel::new();
    ch.push(frame(7));
    ch.close();
    assert_eq!(popped(&mut ch), Some(7));
    assert!(matches!(ch.pop(), FramePop::Closed));
}

#[test]
fn client_hard_cap_drops_oldest() {
    let mut ch = FrameChannel::new();
    let total = FRAME_QUEUE_HARD_CAP as u32 + 10;
    for i in 0..total {
        ch.push(frame(i));
    }
    assert_eq!(ch.depth(), FRAME_QUEUE_HARD_CAP);
    assert_eq!(popped(&mut ch), Some(total - FRAME_QUEUE_HARD_CAP as u32));
}

#[test]
fn depth_counts_aus_not_parts() {
    let mut ch = FrameChannel::new();
    let mut p = frame(1);
    p.complete = false;
    p.part = Some(FramePart {
        offset: 0,
        first: true,
        last: false,
    });
    ch.push(p);
    assert_eq!(
        ch.depth(),
        0,
        "an open AU's prefix part is not a queued frame"
    );
    ch.push(frame(2));
    assert_eq!(ch.depth(), 1);
}

#[test]
fn preroll_holds_the_opening_gop_then_drops_it_whole() {
    let mut ch = FrameChannel::new();
    for i in 0..PREROLL_AUS as u32 {
        assert_eq!(ch.preroll(frame(i)), 0);
    }
    assert_eq!(ch.depth(), PREROLL_AUS);
    assert!(!ch.consumer_seen(), "holding is not consuming");
    assert_eq!(
        popped(&mut ch),
        Some(0),
        "the decoder opens on the first AU held"
    );

    let mut ch = FrameChannel::new();
    for i in 0..PREROLL_AUS as u32 {
        ch.preroll(frame(i));
    }
    assert_eq!(ch.preroll(frame(PREROLL_AUS as u32)), PREROLL_AUS + 1);
    assert_eq!(ch.depth(), 0, "a GOP without its IDR is not kept");
}

#[test]
fn frame_channel_fifo_order_and_depth() {
    let mut ch = FrameChannel::new();
    assert_eq!(ch.depth(), 0);
    ch.push(frame(1));
    ch.push(frame(2));
    assert_eq!(ch.depth(), 2);
    assert_eq!(popped(&mut ch), Some(1));
    assert_eq!(popped(&mut ch), Some(2));
    assert_eq!(ch.depth(), 0);
}

#[test]
fn all_intra_drains_to_newest_and_counts_skips() {
    let mut ch = FrameChannel::new();
    ch.set_all_intra(true);
    for i in 1..=3 {
        ch.push(frame(i));
    }
    assert_eq!(popped(&mut ch), Some(3));
    assert_eq!(ch.depth(), 0);
    assert_eq!(ch.take_skipped(), 2);
    assert_eq!(ch.take_skipped(), 0);
    ch.push(frame(4));
    assert_eq!(popped(&mut ch), Some(4));
    assert_eq!(ch.take_skipped(), 0);
}

#[test]
fn frame_channel_empty_pop_times_out_not_closed() {
    let mut ch = FrameChannel::new();
    assert!(matches!(ch.pop(), FramePop::Timeout));
}

#[test]
fn frame_channel_clear_drops_backlog_and_reports_count() {
    let mut ch = FrameChannel::new();
    for i in 0..5 {
        ch.push(frame(i));
    }
    assert_eq!(ch.clear(), 5);
    assert_eq!(ch.depth(), 0);
    assert!(matches!(ch.pop(), FramePop::Timeout));
}

#[test]
fn frame_channel_close_after_drain_reports_closed() {
    let mut ch = FrameChannel::new();
    ch.push(frame(7));
    ch.close();
    assert_eq!(popped(&mut ch), Some(7));
    assert!(matches!(ch.pop(), FramePop::Closed));
}

#[test]
fn consumer_is_seen_on_first_pop_only() {
    let mut ch = FrameChannel::new();
    ch.push(frame(1));
    assert!(!ch.consumer_seen(), "a push is not a consumer");
    assert!(matches!(ch.pop(), FramePop::Frame(_)));
    assert!(ch.consumer_seen());
    let mut ch = FrameChannel::new();
    assert!(matches!(ch.pop(), FramePop::Timeout));
    assert!(ch.consumer_seen());
}

#[test]
fn frame_channel_hard_cap_drops_oldest() {
    let mut ch = FrameChannel::new();
    let total = FRAME_QUEUE_HARD_CAP as u32 + 10;
    for i in 0..total {
        ch.push(frame(i));
    }
    assert_eq!(ch.depth(), FRAME_QUEUE_HARD_CAP);
    assert_eq!(popped(&mut ch), Some(total - FRAME_QUEUE_HARD_CAP as u32));
}

// Standing latency.

const FLOOR: i128 = 2_000_000;
const ELEVATED: i128 = FLOOR + STANDING_LAT_THRESH_NS + 7_000_000;

fn run_windows(d: &mut StandingLatency, owd: i128, n: u32) -> StandingLatAction {
    for i in 0..n {
        d.note_frame(owd);
        let a = d.on_window(true);
        if i + 1 < n {
            assert_eq!(a, StandingLatAction::Nothing, "window {i} escalated early");
        } else {
            return a;
        }
    }
    unreachable!("n > 0 by construction");
}

fn learned(d: &mut StandingLatency) {
    d.note_frame(FLOOR);
    assert_eq!(d.on_window(true), StandingLatAction::Nothing);
}

#[test]
fn healthy_stream_never_escalates() {
    let mut d = StandingLatency::new();
    learned(&mut d);
    for _ in 0..(STANDING_LAT_WINDOWS * 4) {
        d.note_frame(FLOOR + STANDING_LAT_THRESH_NS - 1);
        assert_eq!(d.on_window(true), StandingLatAction::Nothing);
    }
}

#[test]
fn escalation_ladder_resync_then_bleeds_then_disarm() {
    let mut d = StandingLatency::new();
    learned(&mut d);
    assert!(matches!(
        run_windows(&mut d, ELEVATED, STANDING_LAT_WINDOWS),
        StandingLatAction::Resync { .. }
    ));
    for _ in 0..STANDING_LAT_MAX_BLEEDS {
        assert!(matches!(
            run_windows(&mut d, ELEVATED, STANDING_LAT_WINDOWS),
            StandingLatAction::Bleed { .. }
        ));
        d.bled();
    }
    assert!(matches!(
        run_windows(&mut d, ELEVATED, STANDING_LAT_WINDOWS),
        StandingLatAction::Disarm { .. }
    ));
    d.note_frame(ELEVATED);
    assert_eq!(d.on_window(true), StandingLatAction::Nothing);
}

#[test]
fn loss_windows_reset_the_run() {
    let mut d = StandingLatency::new();
    learned(&mut d);
    for _ in 0..(STANDING_LAT_WINDOWS - 1) {
        d.note_frame(ELEVATED);
        assert_eq!(d.on_window(true), StandingLatAction::Nothing);
    }
    d.note_frame(ELEVATED);
    assert_eq!(d.on_window(false), StandingLatAction::Nothing);
    assert!(matches!(
        run_windows(&mut d, ELEVATED, STANDING_LAT_WINDOWS),
        StandingLatAction::Resync { .. }
    ));
}

#[test]
fn recovery_resets_the_ladder_to_resync_first() {
    let mut d = StandingLatency::new();
    learned(&mut d);
    assert!(matches!(
        run_windows(&mut d, ELEVATED, STANDING_LAT_WINDOWS),
        StandingLatAction::Resync { .. }
    ));
    d.note_frame(FLOOR);
    assert_eq!(d.on_window(true), StandingLatAction::Nothing);
    assert!(matches!(
        run_windows(&mut d, ELEVATED, STANDING_LAT_WINDOWS),
        StandingLatAction::Resync { .. }
    ));
}

#[test]
fn applied_resync_rebases_and_clears_a_stale_offset_elevation() {
    let mut d = StandingLatency::new();
    learned(&mut d);
    assert!(matches!(
        run_windows(&mut d, ELEVATED, STANDING_LAT_WINDOWS),
        StandingLatAction::Resync { .. }
    ));
    d.rebase();
    for _ in 0..(STANDING_LAT_WINDOWS * 2) {
        d.note_frame(FLOOR);
        assert_eq!(d.on_window(true), StandingLatAction::Nothing);
    }
}

#[test]
fn empty_windows_are_no_evidence() {
    let mut d = StandingLatency::new();
    learned(&mut d);
    for _ in 0..(STANDING_LAT_WINDOWS - 1) {
        d.note_frame(ELEVATED);
        assert_eq!(d.on_window(true), StandingLatAction::Nothing);
    }
    assert_eq!(d.on_window(true), StandingLatAction::Nothing);
    d.note_frame(ELEVATED);
    assert!(matches!(
        d.on_window(true),
        StandingLatAction::Resync { .. }
    ));
}

#[test]
fn an_escalation_says_how_far_above_it_is() {
    let mut d = StandingLatency::new();
    learned(&mut d);
    assert_eq!(
        run_windows(&mut d, ELEVATED, STANDING_LAT_WINDOWS),
        StandingLatAction::Resync { above_ms: 17 }
    );
}

#[test]
fn latency_windows_start_over() {
    let mut acc = LatencyAcc::new();
    acc.note(100);
    acc.note(300);
    let w = acc.take();
    assert_eq!((w.sum_us, w.count), (400, 2));
    let w = acc.take();
    assert_eq!((w.sum_us, w.count), (0, 0));
}

// Planes.

fn shape(serial: u32) -> CursorShape {
    CursorShape {
        serial,
        w: 1,
        h: 1,
        hot_x: 0,
        hot_y: 0,
        rgba: vec![0; 4],
    }
}

#[test]
fn a_full_shape_queue_keeps_the_newest() {
    let mut q = ShapeQueue::new();
    for serial in 0..CURSOR_SHAPE_QUEUE as u32 + 3 {
        q.send(shape(serial));
    }
    let mut got: Vec<u32> = Vec::new();
    while let Ok(s) = q.recv() {
        got.push(s.serial);
    }
    assert_eq!(got.len(), CURSOR_SHAPE_QUEUE);
    assert_eq!(got.last(), Some(&(CURSOR_SHAPE_QUEUE as u32 + 2)));
    assert!(matches!(q.recv(), Err(ShapeError::Timeout)));
    q.close();
    assert!(matches!(q.recv(), Err(ShapeError::Disconnected)));
}

#[test]
fn the_first_byte_names_the_plane() {
    assert_eq!(plane_of(&[]), None);
    assert_eq!(plane_of(&[0xC9, 1]), Some(Plane::Audio));
    assert_eq!(plane_of(&[0xD2]), Some(Plane::AudioRed));
    assert_eq!(plane_of(&[0xD3]), Some(Plane::AudioPcm));
    assert_eq!(plane_of(&[0xCD]), Some(Plane::HidOut));
    assert_eq!(plane_of(&[0xCE]), Some(Plane::HdrMeta));
    assert_eq!(plane_of(&[0xCF]), Some(Plane::HostTiming));
    assert_eq!(plane_of(&[0xD0]), Some(Plane::CursorState));
    assert_eq!(plane_of(&[0xD1]), Some(Plane::PadAudio));
    assert_eq!(plane_of(&[0x00]), None);
}

fn audio(seq: u32, prev: Option<Vec<u8>>) -> AudioIn {
    AudioIn {
        seq,
        pts_ns: 100_000_000 + u64::from(seq) * 5_000_000,
        data: vec![seq as u8],
        prev,
    }
}

#[test]
fn a_lost_audio_packet_is_rebuilt_from_its_copy() {
    let mut d = Demux::new();
    assert_eq!(d.on_audio(audio(1, Some(vec![0]))).len(), 1);
    let out = d.on_audio(audio(3, Some(vec![2])));
    assert_eq!(out.len(), 2);
    assert_eq!((out[0].seq, out[0].data.clone()), (2, vec![2]));
    assert_eq!(out[0].pts_ns, 100_000_000 + 2 * 5_000_000);
    assert_eq!((out[1].seq, out[1].data.clone()), (3, vec![3]));
    assert!(d.on_audio(audio(2, None)).is_empty(), "late");
    assert!(d.on_audio(audio(3, None)).is_empty(), "a repeat");
    assert_eq!(d.on_audio(audio(6, None)).len(), 1, "no copy to rebuild from");
}

#[test]
fn a_lossless_packet_crosses_unchanged() {
    let mut d = Demux::new();
    let wire: Vec<u8> = (0..=255).collect();
    let out = d.on_audio(AudioIn {
        seq: 7,
        pts_ns: 1_234_567,
        data: wire.clone(),
        prev: None,
    });
    assert_eq!(out.len(), 1);
    assert_eq!((out[0].seq, out[0].pts_ns), (7, 1_234_567));
    assert_eq!(out[0].data, wire);
}

#[test]
fn sequence_wheels_wrap() {
    assert!(newer(None, 5));
    assert!(newer(Some(u32::MAX), 0));
    assert!(!newer(Some(0), u32::MAX));
    assert!(!newer(Some(5), 5));
    assert!(seq_newer(0, Some(255)));
    assert!(!seq_newer(255, Some(0)));
    assert!(!seq_newer(9, Some(9)));
    assert!(seq_newer(9, None));
}

fn rumble(pad: u16, seq: Option<u8>) -> RumbleIn {
    RumbleIn {
        pad,
        low: 10,
        high: 20,
        left_trigger: 30,
        right_trigger: 40,
        envelope: seq.map(|seq| RumbleLease { seq, ttl_ms: 300 }),
    }
}

#[test]
fn a_reordered_rumble_lease_is_dropped() {
    let mut d = Demux::new();
    let out = |pad: u16, ttl_ms: Option<u16>| {
        Some((
            (pad, 10, 20, ttl_ms),
            RumbleFeed { pad, low: 10, high: 20, left_trigger: 30, right_trigger: 40, ttl_ms },
        ))
    };
    assert_eq!(d.on_rumble(rumble(2, Some(5))), out(2, Some(300)));
    assert_eq!(d.on_rumble(rumble(2, Some(5))), None);
    assert_eq!(d.on_rumble(rumble(2, Some(4))), None);
    assert_eq!(d.on_rumble(rumble(2, Some(6))), out(2, Some(300)));
    assert_eq!(d.on_rumble(rumble(3, Some(4))), out(3, Some(300)));
    assert_eq!(d.on_rumble(rumble(2, None)), out(2, None));
    assert_eq!(d.on_rumble(rumble(16, None)), None);
}

#[test]
fn host_timings_feed_the_encode_window() {
    let mut d = Demux::new();
    d.on_host_timing(Some(2_000));
    d.on_host_timing(None);
    d.on_host_timing(Some(4_000));
    let w = d.encode_lat.take();
    assert_eq!((w.sum_us, w.count), (6_000, 2));
}

// Gamepad snapshots.

#[test]
fn pads_are_folded_for_a_host_that_takes_snapshots() {
    let mut p = Pads::new(0x01);
    assert_eq!(p.on_input(PadInput::Button, 3), Route::Fold(3));
    assert_eq!(p.on_folded(3), 1);
    assert_eq!(p.on_folded(3), 2);
    assert_eq!(p.on_input(PadInput::Axis, 0), Route::Fold(0));
    assert_eq!(p.on_input(PadInput::Other, 3), Route::Pass);
    assert_eq!(p.on_input(PadInput::Axis, 16), Route::Pass, "no such slot");
    assert_eq!(p.refresh(), vec![(0, 1), (3, 3)]);
    assert_eq!(p.refresh(), vec![(0, 2), (3, 4)]);
}

#[test]
fn an_older_host_gets_every_transition() {
    let mut p = Pads::new(0x02);
    assert_eq!(p.on_input(PadInput::Button, 3), Route::Pass);
    assert!(p.refresh().is_empty());
}

#[test]
fn snapshot_numbers_wrap() {
    let mut p = Pads::new(0xFF);
    p.on_input(PadInput::Button, 0);
    let mut last = 0;
    for _ in 0..256 {
        last = p.on_folded(0);
    }
    assert_eq!(last, 0);
    assert!(seq_newer(p.on_folded(0), Some(last)));
}

// Speed test.

fn stats(packets: u64, bytes: u64) -> Stats {
    Stats {
        packets_received: packets,
        bytes_received: bytes,
        ..Stats::default()
    }
}

const RESULT: ProbeResult = ProbeResult {
    bytes_sent: 900_000,
    packets_sent: 50,
    wire_packets_sent: 1_000,
    send_dropped: 250,
    duration_ms: 800,
};

#[test]
fn a_speed_test_counts_what_arrived_during_the_burst() {
    let mut p = ProbeState::started();
    assert!(p.mirror(&stats(100, 10_000)));
    assert!(p.mirror(&stats(500, 500_000)));
    assert!(p.mirror(&stats(1_000, 1_010_000)));
    p.on_result(RESULT);
    assert!(!p.mirror(&stats(9_000, 9_000_000)), "the burst is over");
    let o = p.outcome();
    assert!(o.done);
    assert_eq!((o.recv_packets, o.recv_bytes), (900, 1_000_000));
    assert_eq!(o.throughput_kbps, 10_000);
    assert_eq!(o.lost_packets, 100);
    assert_eq!(o.offered_packets, 1_250);
    assert_eq!((o.host_bytes, o.host_packets, o.elapsed_ms), (900_000, 50, 800));
    assert_eq!((o.wire_packets_sent, o.send_dropped), (1_000, 250));
}

#[test]
fn a_partial_speed_test_reads_live() {
    let mut p = ProbeState::started();
    p.mirror(&stats(100, 1_000));
    p.mirror(&stats(150, 3_000));
    let o = p.outcome();
    assert!(!o.done);
    assert_eq!((o.recv_packets, o.recv_bytes, o.throughput_kbps), (50, 2_000, 0));
    let o = ProbeState::default().outcome();
    assert_eq!((o.done, o.recv_bytes, o.lost_packets), (false, 0, 0));
}

// Pump.

fn arrival(now: u64, depth: usize) -> Arrival {
    Arrival {
        now,
        wall_ns: 10 * SEC,
        clock_offset_ns: 0,
        pts_ns: 0,
        depth,
        filler: false,
        probing: false,
    }
}

fn late(now: u64) -> Arrival {
    Arrival {
        clock_offset_ns: 1,
        pts_ns: 10 * SEC - FLUSH_LATENCY - MS,
        ..arrival(now, 0)
    }
}

#[test]
fn a_standing_queue_jumps_after_thirty_frames() {
    let mut p = Pump::new(0, 0);
    for i in 0..29 {
        assert_eq!(p.on_frame(&arrival(i * MS, 6)), FrameStep::Deliver);
    }
    assert_eq!(
        p.on_frame(&arrival(SEC, 6)),
        FrameStep::Jump { clock: false, queue: true }
    );
    for i in 0..40 {
        assert_eq!(p.on_frame(&arrival(SEC + i * MS, 6)), FrameStep::Deliver);
    }
    assert_eq!(
        p.on_frame(&arrival(SEC + FLUSH_COOLDOWN, 6)),
        FrameStep::Jump { clock: false, queue: true }
    );
}

#[test]
fn a_clump_that_drains_costs_nothing() {
    let mut p = Pump::new(0, 0);
    for _ in 0..29 {
        p.on_frame(&arrival(0, 8));
    }
    assert_eq!(p.on_frame(&arrival(0, 4)), FrameStep::Deliver);
    assert_eq!(p.standing_frames, 29, "between the marks it stays");
    assert_eq!(p.on_frame(&arrival(0, 2)), FrameStep::Deliver);
    assert_eq!(p.standing_frames, 0);
}

#[test]
fn a_clock_step_is_found_out() {
    let mut p = Pump::new(0, 7);
    for i in 0..29 {
        assert_eq!(p.on_frame(&late(i)), FrameStep::Deliver);
    }
    assert_eq!(p.on_frame(&late(30)), FrameStep::Jump { clock: true, queue: false });
    p.on_flushed(true, false, 3, 0);
    assert!(p.resync_wanted && p.clock_detector_armed);
    for i in 0..29 {
        assert_eq!(p.on_frame(&late(3 * SEC + i)), FrameStep::Deliver);
    }
    assert_eq!(p.on_frame(&late(4 * SEC)), FrameStep::Jump { clock: true, queue: false });
    p.on_flushed(true, false, 63, 0);
    assert!(!p.clock_detector_armed);
    for i in 0..100 {
        assert_eq!(p.on_frame(&late(9 * SEC + i)), FrameStep::Deliver);
    }
    p.on_clock_gen(7);
    assert!(!p.clock_detector_armed, "nothing was applied");
    p.on_clock_gen(8);
    assert!(p.clock_detector_armed);
    assert_eq!(p.noop_clock_flushes, 0);
}

#[test]
fn a_real_backlog_keeps_the_clock_detector() {
    let mut p = Pump::new(0, 0);
    p.on_flushed(true, false, 3, 0);
    assert_eq!(p.noop_clock_flushes, 1);
    p.on_flushed(true, false, 64, 0);
    assert_eq!(p.noop_clock_flushes, 0);
    p.on_flushed(true, false, 3, 1);
    assert_eq!(p.noop_clock_flushes, 0);
    p.on_flushed(true, true, 3, 0);
    assert_eq!(p.noop_clock_flushes, 0);
}

#[test]
fn a_speed_test_keeps_the_detectors_off() {
    let mut p = Pump::new(0, 0);
    for _ in 0..29 {
        p.on_frame(&arrival(0, 20));
    }
    let probing = Arrival { probing: true, ..arrival(0, 90) };
    assert_eq!(p.on_frame(&probing), FrameStep::Deliver);
    assert_eq!(p.standing_frames, 0);
    let filler = Arrival { filler: true, ..arrival(0, 90) };
    assert_eq!(p.on_frame(&filler), FrameStep::Skip);
    assert_eq!(p.standing_frames, 0);
}

#[test]
fn a_window_reports_once() {
    let mut p = Pump::new(0, 0);
    let in_time = Arrival {
        clock_offset_ns: 1,
        pts_ns: 10 * SEC - 3 * MS + 1,
        ..arrival(0, 0)
    };
    p.on_frame(&in_time);
    p.on_frame(&Arrival { pts_ns: in_time.pts_ns - 2 * MS, ..in_time });
    p.on_flushed(true, false, 0, 0);
    p.flush_in_window = true;
    let st = Stats {
        packets_received: 999,
        fec_recovered_shards: 1,
        frames_dropped: 2,
        ..Stats::default()
    };
    assert_eq!(p.report(749 * MS, &st, false), None);
    assert_eq!(p.report(750 * MS, &st, true), None, "a speed test runs");
    assert_eq!(
        p.report(750 * MS, &st, false),
        Some(WindowReport {
            resync: true,
            loss_ppm: 1_000,
            dropped: 2,
            owd_mean_us: Some(4_000),
            flushed: true,
        })
    );
    assert_eq!(
        p.report(1_500 * MS, &st, false),
        Some(WindowReport {
            resync: false,
            loss_ppm: 0,
            dropped: 0,
            owd_mean_us: None,
            flushed: false,
        })
    );
}

// Control stream.

const MODE: Mode = Mode { width: 1920, height: 1080, refresh_hz: 60 };
const OTHER: Mode = Mode { width: 1280, height: 720, refresh_hz: 120 };

#[test]
fn a_refused_mode_switch_changes_nothing() {
    let mut c = Control::new(MODE, 0, true);
    assert_eq!(c.on_reply(CtrlReply::Reconfigured { accepted: false, mode: OTHER }), None);
    assert_eq!(c.mode, MODE);
    assert_eq!(c.on_reply(CtrlReply::Reconfigured { accepted: true, mode: OTHER }), None);
    assert_eq!(c.mode, OTHER);
}

#[test]
fn the_newest_ack_is_read_once() {
    let mut c = Control::new(MODE, 0, true);
    assert_eq!(c.take_ack(), None);
    c.on_reply(CtrlReply::BitrateChanged(10_000, None));
    c.on_reply(CtrlReply::BitrateChanged(20_000, Some(AckReason::Cadence)));
    assert_eq!(c.take_ack(), Some((20_000, Some(AckReason::Cadence))));
    assert_eq!(c.take_ack(), None);
}

#[test]
fn a_resync_is_applied_only_if_trusted() {
    let mut c = Control::new(MODE, 5, true);
    c.on_reply(CtrlReply::Resynced { offset_ns: 9, trusted: false });
    assert_eq!((c.clock_offset_ns, c.clock_gen), (5, 0));
    c.on_reply(CtrlReply::Resynced { offset_ns: 9, trusted: true });
    assert_eq!((c.clock_offset_ns, c.clock_gen), (9, 1));
    assert_eq!(c.on_request(CtrlRequest::ClockResync), CtrlStep::Resync);
    assert_eq!(c.on_resync_tick(), CtrlStep::Resync);
    let old = Control::new(MODE, 0, false);
    assert_eq!(old.on_request(CtrlRequest::ClockResync), CtrlStep::Ignore);
    assert_eq!(old.on_resync_tick(), CtrlStep::Ignore);
    assert_eq!(
        old.on_request(CtrlRequest::Keyframe),
        CtrlStep::Write(CtrlRequest::Keyframe)
    );
}

#[test]
fn clipboard_replies_become_events() {
    let mut c = Control::new(MODE, 0, true);
    assert_eq!(
        c.on_reply(CtrlReply::ClipState { enabled: true, policy: 3, reason: 1 }),
        Some(ClipEventCore::State { enabled: true, policy: 3, reason: 1 })
    );
    let kinds = vec![ClipKind { mime: "text/plain".to_string(), size_hint: 5 }];
    assert_eq!(
        c.on_reply(CtrlReply::ClipOffer { seq: 4, kinds: kinds.clone() }),
        Some(ClipEventCore::RemoteOffer { seq: 4, kinds })
    );
    assert_eq!(c.on_reply(CtrlReply::Unknown), None);
}

#[test]
fn a_speed_test_is_asked_for_and_reported() {
    let mut c = Control::new(MODE, 0, true);
    c.request_probe(100_000, 500);
    assert!(c.probe.running());
    c.on_reply(CtrlReply::Probe(RESULT));
    assert!(c.probe.outcome().done);
}

#[test]
fn queue_states_become_errors() {
    assert_eq!(plane_error(Empty::Timeout), PunktfunkStatus::NoFrame);
    assert_eq!(plane_error(Empty::Disconnected), PunktfunkStatus::Closed);
    assert_eq!(mic_sent(Offered::Taken), Ok(()));
    assert_eq!(mic_sent(Offered::Full), Ok(()));
    assert_eq!(mic_sent(Offered::Gone), Err(PunktfunkStatus::Closed));
}

#[test]
fn transfer_numbers_stay_in_the_low_half() {
    let mut ids = XferIds::new();
    assert_eq!((ids.take(), ids.take()), (1, 2));
    let mut ids = XferIds { next: 0x8000_0000 };
    assert_eq!((ids.take(), ids.take()), (0, 1));
    let mut ids = XferIds { next: u32::MAX };
    assert_eq!((ids.take(), ids.take()), (0x7FFF_FFFF, 0));
}

// Connection.

#[test]
fn a_wrong_host_is_told_from_a_bad_link() {
    let a = [1u8; 32];
    let mut b = a;
    b[31] = 2;
    assert_eq!(connect_error(&Some(a), &Some(b)), PunktfunkStatus::Crypto);
    assert_eq!(connect_error(&Some(a), &Some(a)), PunktfunkStatus::Io);
    assert_eq!(connect_error(&Some(a), &None), PunktfunkStatus::Io);
    assert_eq!(connect_error(&None, &Some(b)), PunktfunkStatus::Io);
    let status = |f| failure_status(&Some(a), &f);
    assert_eq!(status(ConnectFailure::Late), PunktfunkStatus::Timeout);
    assert_eq!(status(ConnectFailure::Handshake(Some(b))), PunktfunkStatus::Crypto);
    assert_eq!(status(ConnectFailure::Handshake(None)), PunktfunkStatus::Io);
    let setup = ConnectFailure::Setup(PunktfunkStatus::BadPacket);
    assert_eq!(status(setup), PunktfunkStatus::BadPacket);
}

#[test]
fn a_delay_is_read_only_where_it_means_something() {
    let a = Arrival { clock_offset_ns: 5, pts_ns: 10 * SEC - 7, ..arrival(0, 0) };
    assert_eq!(a.delay(), Some(12));
    assert_eq!(Arrival { clock_offset_ns: 0, ..a }.delay(), None, "the clocks do not compare");
    assert_eq!(Arrival { filler: true, ..a }.delay(), None);
    assert_eq!(Arrival { probing: true, ..a }.delay(), None);
    assert_eq!(Arrival { pts_ns: 10 * SEC + 5, ..a }.delay(), None, "from the future");
    assert_eq!(Arrival { pts_ns: 5, ..a }.delay(), None, "ten seconds are not believed");
    assert_eq!(Arrival { pts_ns: 6, ..a }.delay(), Some(i128::from(10 * SEC) - 1));
}

#[test]
fn a_finished_burst_is_told_with_the_clients_interval() {
    let mut p = ProbeState::started();
    let mut a = Arrivals::since(0);
    a.follow(false, p.mirror(&stats(100, 10_000)), 100, MS);
    assert_eq!(a, Arrivals::since(100), "a burst starts from what was there");
    a.follow(true, p.mirror(&stats(500, 500_000)), 500, 2 * MS);
    a.follow(true, p.mirror(&stats(1_000, 1_010_000)), 1_000, 402 * MS);
    assert!(p.report(&a).is_none(), "the host has not reported");
    p.on_result(RESULT);
    let seen = a;
    a.follow(true, p.mirror(&stats(9_000, 9_000_000)), 9_000, 900 * MS);
    assert_eq!(a, seen, "what comes after the burst is not its own");
    let r = p.report(&a).expect("the host has reported");
    assert_eq!((r.delivered_bytes, r.delivered_packets), (1_000_000, 900));
    assert_eq!((r.window_ms, r.client_interval_ms, r.client_interval_us), (400, 400, 400_000));
    assert_eq!((r.host_duration_ms, r.host_bytes_sent), (800, 900_000));
    assert_eq!((r.wire_packets_sent, r.send_dropped), (1_000, 250));
    // Without an interval of its own the host's window stands in.
    let r = p.report(&Arrivals::since(0)).expect("the host has reported");
    assert_eq!((r.window_ms, r.client_interval_ms, r.client_interval_us), (800, 0, 0));
}

#[test]
fn pairing_needs_the_proof_and_the_host() {
    let fail = PairAction::Fail(PunktfunkStatus::Crypto);
    let mut p = PairState::Fresh;
    assert_eq!(p.step(PairEvent::Opened), PairAction::SendRequest);
    assert_eq!(p.step(PairEvent::Challenge { verified: true }), PairAction::SendProof);
    assert_eq!(p.step(PairEvent::Answer { ok: true }), PairAction::Finish);
    assert_eq!(p, PairState::Over);

    let mut p = PairState::Requested;
    assert_eq!(p.step(PairEvent::Challenge { verified: false }), fail);
    assert_eq!(p.step(PairEvent::Challenge { verified: true }), fail, "decided is decided");

    let mut p = PairState::Proved;
    assert_eq!(p.step(PairEvent::Answer { ok: false }), fail);

    let mut p = PairState::Requested;
    assert_eq!(p.step(PairEvent::Answer { ok: true }), fail, "an answer out of turn");
    assert_eq!((pairing_close_code(true), pairing_close_code(false)), (0, 1));
}

#[test]
fn arrivals_span_first_to_last() {
    let mut a = Arrivals::since(100);
    assert_eq!(a.interval_us(), 0);
    a.note(100, 5_000);
    assert_eq!(a, Arrivals::since(100), "a counter that stands still is no arrival");
    a.note(101, 10_000);
    assert_eq!(a.interval_us(), 0, "one arrival is no interval");
    a.note(110, 2_510_500);
    a.note(110, 9_000_000);
    assert_eq!(a.interval_us(), 2_500);
}

#[test]
fn a_quit_closes_with_its_own_code() {
    assert_eq!(close_code(true), QUIT_CLOSE_CODE);
    assert_eq!(close_code(false), 0);
    assert_ne!(QUIT_CLOSE_CODE, 0);
}

#[test]
fn adaptive_bitrate_needs_an_automatic_rate() {
    assert_eq!(adaptive_start(0, 20_000), 20_000);
    assert_eq!(adaptive_start(5_000, 20_000), 0);
    assert_eq!(adaptive_start(0, 0), 0);
}

#[test]
fn every_client_advertises_its_planes() {
    assert_eq!(advertised_caps(0x03), 0x1B);
    assert_eq!(advertised_caps(0xFF), 0xFF);
}

#[test]
fn threads_are_listed_once() {
    let mut t = Vec::new();
    register_thread(&mut t, Some(7));
    register_thread(&mut t, None);
    register_thread(&mut t, Some(9));
    register_thread(&mut t, Some(7));
    assert_eq!(t, vec![7, 9]);
}
