use punktfunk_core::abi::clip::{
    build_clip_event, fetch_format, offered_kinds, PunktfunkClipKind, PUNKTFUNK_CLIP_CANCELLED,
    PUNKTFUNK_CLIP_DATA, PUNKTFUNK_CLIP_ERROR, PUNKTFUNK_CLIP_FETCH_REQUEST,
    PUNKTFUNK_CLIP_REMOTE_OFFER, PUNKTFUNK_CLIP_STATE,
};
use punktfunk_core::abi::config::{PunktfunkConfig, PunktfunkFrame, PunktfunkStats};
use punktfunk_core::abi::connect::{
    compositor_pref, gamepad_pref, identity, identity_out, launch_id, normalize_channels, required, rumble_ttl,
    terminated, wake_addresses, ConnectArgs, PunktfunkAudioPacket, TextArg,
    PUNKTFUNK_GAMEPAD_AUTO, PUNKTFUNK_GAMEPAD_DUALSENSE, PUNKTFUNK_GAMEPAD_DUALSHOCK4,
    PUNKTFUNK_GAMEPAD_STEAMCONTROLLER, PUNKTFUNK_GAMEPAD_STEAMDECK, PUNKTFUNK_GAMEPAD_XBOX360,
    PUNKTFUNK_GAMEPAD_XBOXONE, PUNKTFUNK_RUMBLE_NO_TTL,
};
use punktfunk_core::abi::feedback::{
    hdr_from_peak, hdr_from_peak_text, PunktfunkHdrMeta, PunktfunkHidOutput, PunktfunkHostTiming,
    PUNKTFUNK_HIDOUT_LED, PUNKTFUNK_HIDOUT_PLAYER_LEDS, PUNKTFUNK_HIDOUT_TRACKPAD_HAPTIC,
    PUNKTFUNK_HIDOUT_TRIGGER,
};
use punktfunk_core::abi::rich::{
    PunktfunkRichInput, PunktfunkRichInputEx, PUNKTFUNK_RICH_MOTION, PUNKTFUNK_RICH_TOUCHPAD,
    PUNKTFUNK_RICH_TOUCHPAD_EX,
};
use punktfunk_core::client::clipboard::{ClipEventCore, ClipKind};
use punktfunk_core::client::planes::AudioPacket;
use punktfunk_core::config::{
    CompositorPref, FecScheme, GamepadPref, Mode, ProtocolPhase, Role,
};
use punktfunk_core::error::PunktfunkStatus;
use punktfunk_core::quic::{HdrMeta, HidOutput, HostTiming, RichInput};
use punktfunk_core::session::Frame;
use punktfunk_core::stats::Stats;

fn config() -> PunktfunkConfig {
    PunktfunkConfig {
        struct_size: 72,
        role: 1,
        phase: 2,
        fec_scheme: 1,
        fec_percent: 20,
        max_data_per_block: 200,
        shard_payload: 1200,
        encrypt: 7,
        key: [3; 16],
        salt: [4; 4],
        loopback_drop_period: 0,
        max_frame_bytes: 1 << 20,
    }
}

#[test]
fn a_configuration_is_read_field_by_field() {
    let c = config().to_config(Ok(())).unwrap();
    assert_eq!(c.role, Role::Client);
    assert_eq!(c.phase, ProtocolPhase::P2Punktfunk);
    assert_eq!(c.fec.scheme, FecScheme::Gf16);
    assert_eq!((c.fec.fec_percent, c.fec.max_data_per_block), (20, 200));
    assert_eq!((c.shard_payload, c.max_frame_bytes), (1200, 1 << 20));
    assert!(c.encrypt);
    assert_eq!((c.key, c.salt), ([3; 16], [4; 4]));
    let c = PunktfunkConfig { role: 0, phase: 1, fec_scheme: 0, encrypt: 0, ..config() };
    let c = c.to_config(Ok(())).unwrap();
    assert_eq!((c.role, c.phase), (Role::Host, ProtocolPhase::P1GameStream));
    assert_eq!((c.fec.scheme, c.encrypt), (FecScheme::Gf8, false));
}

#[test]
fn numbers_out_of_range_are_refused() {
    let bad = [
        PunktfunkConfig { role: 2, ..config() },
        PunktfunkConfig { phase: 0, ..config() },
        PunktfunkConfig { phase: 3, ..config() },
        PunktfunkConfig { fec_scheme: 2, ..config() },
        PunktfunkConfig { fec_scheme: 256, ..config() },
        PunktfunkConfig { fec_percent: 300, ..config() },
        PunktfunkConfig { max_data_per_block: 65_600, ..config() },
    ];
    for c in bad {
        assert_eq!(c.to_config(Ok(())).err(), Some(PunktfunkStatus::InvalidArg));
        assert_eq!(c.spell().err(), Some(PunktfunkStatus::InvalidArg));
        assert_eq!(
            c.to_config(Err(PunktfunkStatus::Unsupported)).err(),
            Some(PunktfunkStatus::InvalidArg)
        );
    }
}

#[test]
fn a_smaller_record_is_refused() {
    assert_eq!(PunktfunkConfig::read(None, 72, Ok(())).err(), Some(PunktfunkStatus::NullPointer));
    assert_eq!(
        PunktfunkConfig::read(Some(config()), 73, Ok(())).err(),
        Some(PunktfunkStatus::InvalidArg)
    );
    assert!(PunktfunkConfig::read(Some(config()), 72, Ok(())).is_ok());
}

#[test]
fn a_configuration_runs_only_once_validated() {
    assert_eq!(config().spell().unwrap().shard_payload, 1200);
    let refused = Err(PunktfunkStatus::Unsupported);
    assert_eq!(config().to_config(refused).err(), Some(PunktfunkStatus::Unsupported));
    assert_eq!(
        PunktfunkConfig::read(Some(config()), 72, refused).err(),
        Some(PunktfunkStatus::Unsupported)
    );
    assert_eq!(
        PunktfunkConfig::read(Some(config()), 73, refused).err(),
        Some(PunktfunkStatus::InvalidArg)
    );
}

#[test]
fn a_peak_is_read_from_text() {
    let peak = |text: &str| hdr_from_peak_text(text).map(|m| m.max_display_mastering_luminance);
    assert_eq!(peak("800"), Some(8_000_000));
    assert_eq!(peak(" \t+1000\n"), Some(10_000_000));
    assert_eq!(peak("\u{3000}7\u{2003}"), Some(70_000));
    assert_eq!(peak("4294967295"), Some(u32::MAX));
    for none in ["", "  ", "0", "+", "-1", "-0", "1 0", "4294967296", "12nits", "1_0"] {
        assert_eq!(peak(none), None, "{none:?}");
    }
}

#[test]
fn counters_and_frames_are_copied() {
    let s = Stats { frames_dropped: 4, bytes_received: 9, packets_sent: 2, ..Stats::default() };
    let out = PunktfunkStats::from(s);
    assert_eq!((out.frames_dropped, out.bytes_received, out.packets_sent), (4, 9, 2));
    assert_eq!(PunktfunkStats::default().frames_dropped, 0);
    let frame = Frame {
        data: vec![1, 2, 3],
        frame_index: 7,
        pts_ns: 8,
        flags: 9,
        complete: true,
        part: None,
        received_ns: 0,
    };
    let out = PunktfunkFrame::of(&frame);
    assert_eq!((out.len, out.frame_index, out.pts_ns, out.flags), (3, 7, 8, 9));
    let out = PunktfunkAudioPacket::of(&AudioPacket { seq: 1, pts_ns: 2, data: vec![5] });
    assert_eq!((out.len, out.seq, out.pts_ns), (1, 1, 2));
    let out = PunktfunkHostTiming::of(&HostTiming { pts_ns: 5, host_us: 6 });
    assert_eq!((out.pts_ns, out.host_us), (5, 6));
}

#[test]
fn pad_feedback_is_flattened() {
    let o = PunktfunkHidOutput::from_hid(&HidOutput::Led { pad: 1, r: 2, g: 3, b: 4 });
    assert_eq!((o.kind, o.pad, o.r, o.g, o.b), (PUNKTFUNK_HIDOUT_LED, 1, 2, 3, 4));
    assert_eq!((o.effect_len, o.effect), (0, [0; 11]));
    let o = PunktfunkHidOutput::from_hid(&HidOutput::PlayerLeds { pad: 1, bits: 0x15 });
    assert_eq!((o.kind, o.pad, o.player_bits), (PUNKTFUNK_HIDOUT_PLAYER_LEDS, 1, 0x15));
    let o = PunktfunkHidOutput::from_hid(&HidOutput::Trigger {
        pad: 1,
        which: 1,
        effect: (1..=20).collect(),
    });
    assert_eq!((o.kind, o.which, o.effect_len), (PUNKTFUNK_HIDOUT_TRIGGER, 1, 11));
    assert_eq!(o.effect, [1, 2, 3, 4, 5, 6, 7, 8, 9, 10, 11]);
    let o = PunktfunkHidOutput::from_hid(&HidOutput::Trigger {
        pad: 0,
        which: 0,
        effect: vec![9, 8],
    });
    assert_eq!((o.effect_len, o.effect), (2, [9, 8, 0, 0, 0, 0, 0, 0, 0, 0, 0]));
    let o = PunktfunkHidOutput::from_hid(&HidOutput::TrackpadHaptic {
        pad: 2,
        side: 1,
        amplitude: 0x1234,
        period: 0x00FF,
        count: 0xFF00,
    });
    assert_eq!((o.kind, o.which, o.effect_len), (PUNKTFUNK_HIDOUT_TRACKPAD_HAPTIC, 1, 6));
    assert_eq!(o.effect[..6], [0x34, 0x12, 0xFF, 0x00, 0x00, 0xFF]);
}

#[test]
fn hdr_metadata_is_split_by_coordinate() {
    let m = HdrMeta {
        display_primaries: [[1, 2], [3, 4], [5, 6]],
        white_point: [7, 8],
        max_display_mastering_luminance: 9,
        min_display_mastering_luminance: 10,
        max_cll: 11,
        max_fall: 12,
    };
    let o = PunktfunkHdrMeta::from_meta(&m);
    assert_eq!((o.display_primaries_x, o.display_primaries_y), ([1, 3, 5], [2, 4, 6]));
    assert_eq!((o.white_point_x, o.white_point_y), (7, 8));
    assert_eq!(
        (o.max_display_mastering_luminance, o.min_display_mastering_luminance),
        (9, 10)
    );
    assert_eq!((o.max_cll, o.max_fall), (11, 12));
}

#[test]
fn a_peak_makes_a_display_volume() {
    assert!(hdr_from_peak(0).is_none());
    let m = hdr_from_peak(800).unwrap();
    assert_eq!(m.display_primaries, [[8500, 39850], [6550, 2300], [35400, 14600]]);
    assert_eq!(m.white_point, [15635, 16450]);
    assert_eq!(m.max_display_mastering_luminance, 8_000_000);
    assert_eq!((m.min_display_mastering_luminance, m.max_cll, m.max_fall), (50, 0, 0));
    assert_eq!(
        hdr_from_peak(u32::MAX).unwrap().max_display_mastering_luminance,
        u32::MAX
    );
    assert_eq!(
        hdr_from_peak(429_496).unwrap().max_display_mastering_luminance,
        4_294_960_000
    );
}

fn rich(kind: u8) -> PunktfunkRichInput {
    PunktfunkRichInput {
        kind,
        pad: 1,
        finger: 2,
        active: 3,
        x: 40_000,
        y: 5,
        gyro: [1, -2, 3],
        accel: [-4, 5, -6],
    }
}

fn rich_ex(kind: u8) -> PunktfunkRichInputEx {
    PunktfunkRichInputEx {
        struct_size: 32,
        kind,
        pad: 1,
        finger: 2,
        active: 3,
        surface: 2,
        click: 1,
        _reserved: [0; 2],
        x: -25_536,
        y: 5,
        pressure: 77,
        gyro: [1, -2, 3],
        accel: [-4, 5, -6],
    }
}

#[test]
fn rich_input_is_read_by_its_kind() {
    for r in [
        rich(PUNKTFUNK_RICH_TOUCHPAD).to_rich(),
        rich_ex(PUNKTFUNK_RICH_TOUCHPAD).to_rich(),
    ] {
        assert!(matches!(
            r,
            Some(RichInput::Touchpad { pad: 1, finger: 2, active: true, x: 40_000, y: 5 })
        ));
    }
    for r in [
        rich(PUNKTFUNK_RICH_MOTION).to_rich(),
        rich_ex(PUNKTFUNK_RICH_MOTION).to_rich(),
    ] {
        assert!(matches!(
            r,
            Some(RichInput::Motion { pad: 1, gyro: [1, -2, 3], accel: [-4, 5, -6] })
        ));
    }
    assert!(rich(PUNKTFUNK_RICH_TOUCHPAD_EX).to_rich().is_none());
    assert!(matches!(
        rich_ex(PUNKTFUNK_RICH_TOUCHPAD_EX).to_rich(),
        Some(RichInput::TouchpadEx {
            pad: 1,
            surface: 2,
            finger: 2,
            touch: true,
            click: true,
            x: -25_536,
            y: 5,
            pressure: 77,
        })
    ));
    assert!(rich(0).to_rich().is_none());
    assert_eq!(
        PunktfunkRichInputEx::read(Some(rich_ex(9)), 32).err(),
        Some(PunktfunkStatus::InvalidArg)
    );
    assert_eq!(
        PunktfunkRichInputEx::read(Some(rich_ex(1)), 33).err(),
        Some(PunktfunkStatus::InvalidArg)
    );
    assert_eq!(
        PunktfunkRichInputEx::read(None, 32).err(),
        Some(PunktfunkStatus::NullPointer)
    );
    assert!(PunktfunkRichInputEx::read(Some(rich_ex(1)), 32).is_ok());
}

#[test]
fn clipboard_events_are_flattened() {
    let mut slot = Some(vec![1]);
    let kinds = vec![
        ClipKind { mime: "text/plain".to_string(), size_hint: 0 },
        ClipKind { mime: "image/png".to_string(), size_hint: u64::MAX },
    ];
    let e = build_clip_event(ClipEventCore::RemoteOffer { seq: 4, kinds }, &mut slot);
    assert_eq!((e.kind, e.transfer_id), (PUNKTFUNK_CLIP_REMOTE_OFFER, 4));
    let list = b"text/plain\t0\nimage/png\t18446744073709551615\n".to_vec();
    assert_eq!((e.len, slot.clone()), (list.len(), Some(list)));
    let e = build_clip_event(
        ClipEventCore::State { enabled: true, policy: 2, reason: 3 },
        &mut slot,
    );
    assert_eq!((e.kind, e.enabled, e.policy, e.reason), (PUNKTFUNK_CLIP_STATE, 1, 2, 3));
    assert_eq!((e.len, slot.clone()), (0, None));
    let e = build_clip_event(
        ClipEventCore::FetchRequest { req_id: 5, seq: 6, file_index: 7, mime: "m\u{fc}".into() },
        &mut slot,
    );
    assert_eq!(
        (e.kind, e.transfer_id, e.seq, e.file_index),
        (PUNKTFUNK_CLIP_FETCH_REQUEST, 5, 6, 7)
    );
    assert_eq!((e.len, slot.clone()), (3, Some("m\u{fc}".as_bytes().to_vec())));
    let e = build_clip_event(
        ClipEventCore::Data { xfer_id: 8, bytes: vec![9, 9], last: true },
        &mut slot,
    );
    assert_eq!((e.kind, e.transfer_id, e.last, e.len), (PUNKTFUNK_CLIP_DATA, 8, 1, 2));
    assert_eq!(slot, Some(vec![9, 9]));
    let e = build_clip_event(ClipEventCore::Cancelled { id: 3 }, &mut slot);
    assert_eq!((e.kind, e.transfer_id, e.len), (PUNKTFUNK_CLIP_CANCELLED, 3, 0));
    let e = build_clip_event(ClipEventCore::Error { id: 3, code: -7 }, &mut slot);
    assert_eq!((e.kind, e.transfer_id, e.status), (PUNKTFUNK_CLIP_ERROR, 3, -7));
    assert_eq!(slot, None);
}

#[test]
fn an_offer_keeps_its_formats_in_order() {
    let text = |t: &str| TextArg::Text(t.to_string());
    let kind = |mime: TextArg, size_hint: u64| PunktfunkClipKind { mime, size_hint };
    assert_eq!(offered_kinds(&[]), Ok(vec![]));
    assert_eq!(
        offered_kinds(&[kind(text("text/html"), 12), kind(TextArg::Absent, 0)]),
        Ok(vec![
            ClipKind { mime: "text/html".to_string(), size_hint: 12 },
            ClipKind { mime: String::new(), size_hint: 0 },
        ])
    );
    assert_eq!(
        offered_kinds(&[kind(text("text/html"), 12), kind(TextArg::Unreadable, 0)]),
        Err(PunktfunkStatus::InvalidArg)
    );
}

#[test]
fn a_fetch_names_a_format() {
    assert_eq!(
        fetch_format(TextArg::Text("image/png".to_string())),
        Ok("image/png".to_string())
    );
    assert_eq!(fetch_format(TextArg::Absent), Err(PunktfunkStatus::NullPointer));
    assert_eq!(fetch_format(TextArg::Unreadable), Err(PunktfunkStatus::InvalidArg));
}

#[test]
fn preferences_fall_back_to_the_hosts_choice() {
    assert_eq!(compositor_pref(0), CompositorPref::Auto);
    assert_eq!(compositor_pref(4), CompositorPref::Gamescope);
    assert_eq!(compositor_pref(5), CompositorPref::Auto);
    assert_eq!(compositor_pref(0x101), CompositorPref::Auto, "not cut to a byte");
    assert_eq!(gamepad_pref(6), GamepadPref::SteamDeck);
    assert_eq!(gamepad_pref(7), GamepadPref::Auto);
    assert_eq!(gamepad_pref(0x102), GamepadPref::Auto);
}

#[test]
fn gamepad_numbers_match_their_preferences() {
    assert_eq!(PUNKTFUNK_GAMEPAD_AUTO, GamepadPref::Auto.to_u8() as u32);
    assert_eq!(PUNKTFUNK_GAMEPAD_XBOX360, GamepadPref::Xbox360.to_u8() as u32);
    assert_eq!(PUNKTFUNK_GAMEPAD_DUALSENSE, GamepadPref::DualSense.to_u8() as u32);
    assert_eq!(PUNKTFUNK_GAMEPAD_XBOXONE, GamepadPref::XboxOne.to_u8() as u32);
    assert_eq!(PUNKTFUNK_GAMEPAD_DUALSHOCK4, GamepadPref::DualShock4.to_u8() as u32);
    assert_eq!(
        PUNKTFUNK_GAMEPAD_STEAMCONTROLLER,
        GamepadPref::SteamController.to_u8() as u32
    );
    assert_eq!(PUNKTFUNK_GAMEPAD_STEAMDECK, GamepadPref::SteamDeck.to_u8() as u32);
}

fn text(s: &str) -> TextArg {
    TextArg::Text(s.to_string())
}

#[test]
fn half_an_identity_is_refused() {
    assert_eq!(
        identity(text("c"), text("k")),
        Ok(Some(("c".to_string(), "k".to_string())))
    );
    assert_eq!(identity(TextArg::Absent, TextArg::Absent), Ok(None));
    for (c, k) in [
        (text("c"), TextArg::Absent),
        (TextArg::Absent, text("k")),
        (text("c"), TextArg::Unreadable),
        (TextArg::Unreadable, TextArg::Unreadable),
    ] {
        assert_eq!(identity(c, k), Err(PunktfunkStatus::InvalidArg));
    }
    assert_eq!(required(text("x")), Ok("x".to_string()));
    assert_eq!(required(TextArg::Absent), Err(PunktfunkStatus::NullPointer));
    assert_eq!(required(TextArg::Unreadable), Err(PunktfunkStatus::NullPointer));
}

#[test]
fn a_bad_launch_id_launches_nothing() {
    assert_eq!(launch_id(text("game")), Some("game".to_string()));
    assert_eq!(launch_id(text("")), None);
    assert_eq!(launch_id(TextArg::Unreadable), None);
    assert_eq!(launch_id(TextArg::Absent), None);
}

#[test]
fn arguments_make_a_request() {
    let mode = Mode { width: 1, height: 2, refresh_hz: 3 };
    let basic = || {
        ConnectArgs::basic(
            text("host"),
            4770,
            mode,
            Some([5; 32]),
            TextArg::Absent,
            TextArg::Absent,
            900,
        )
    };
    let r = basic().request().unwrap();
    assert_eq!((r.host.as_str(), r.port, r.mode), ("host", 4770, mode));
    assert_eq!((r.compositor, r.gamepad), (CompositorPref::Auto, GamepadPref::Auto));
    assert_eq!((r.bitrate_kbps, r.video_caps, r.audio_channels), (0, 0, 2));
    assert_eq!([0, 1, 2, 3, 6, 7, 8, 255].map(normalize_channels), [2, 2, 2, 2, 6, 2, 8, 2]);
    assert_eq!((r.video_codecs, r.preferred_codec), (2, 0));
    assert_eq!((r.launch, r.pin, r.identity, r.timeout_ms), (None, Some([5; 32]), None, 900));
    let r = ConnectArgs { gamepad: 2, compositor: 1, launch: text("g"), ..basic() };
    let r = r.request().unwrap();
    assert_eq!((r.compositor, r.gamepad), (CompositorPref::Kwin, GamepadPref::DualSense));
    assert_eq!(r.launch, Some("g".to_string()));
    assert!(ConnectArgs { host: TextArg::Unreadable, ..basic() }.request().is_none());
    assert!(ConnectArgs { cert: text("c"), ..basic() }.request().is_none());
}

#[test]
fn texts_are_never_cut() {
    assert_eq!(terminated("abc", 4), Ok(vec![97, 98, 99, 0]));
    assert_eq!(terminated("abc", 3), Err(PunktfunkStatus::InvalidArg));
    assert_eq!(terminated("", 0), Err(PunktfunkStatus::InvalidArg));
    assert_eq!(terminated("\u{fc}", 3), Ok(vec![0xC3, 0xBC, 0]));
    assert_eq!(identity_out("c", "k", 2, 2), Ok((vec![99, 0], vec![107, 0])));
    assert_eq!(identity_out("c", "k", 2, 1), Err(PunktfunkStatus::InvalidArg));
    assert_eq!(identity_out("c", "k", 1, 2), Err(PunktfunkStatus::InvalidArg));
}

#[test]
fn wake_addresses_are_six_bytes_each() {
    let bytes: Vec<u8> = (0..13).collect();
    assert_eq!(
        wake_addresses(&bytes),
        Ok(vec![[0, 1, 2, 3, 4, 5], [6, 7, 8, 9, 10, 11]])
    );
    assert_eq!(wake_addresses(&bytes[..5]), Err(PunktfunkStatus::InvalidArg));
}

#[test]
fn a_lease_is_told_from_none() {
    assert_eq!(rumble_ttl(Some(300)), 300);
    assert_eq!(rumble_ttl(Some(u16::MAX)), 65_535);
    assert_eq!(rumble_ttl(None), PUNKTFUNK_RUMBLE_NO_TTL);
}
