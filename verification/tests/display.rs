use punktfunk_core::display::adl_emul::{
    connector_of, connector_type_str, is_alarming, is_expected_noop, leased, lock_for_stream,
    marker_may_go, rc_str, startup_recover, unlock_after_stream, EmulAction, OpRecord, RunOutcome,
};
use punktfunk_core::display::adl_walk::{Adapter, Call, Connector, Next, Walk};
use punktfunk_core::display::console::console_session_mismatch;
use punktfunk_core::display::journal::{
    decode_journal, encode_journal, read_journal, write_journal, JournalWrite,
};
use punktfunk_core::display::monitor_devnode::{
    disable_connected_inactive, disable_for_deactivated, disabled, enable_instances,
    instance_id_from_interface_path, select_connected_inactive, CcdTargetKey, SavedPath,
    TargetInventory,
};
use punktfunk_core::display::topology_churn::{Churn, Outcome};
use punktfunk_core::display::wide::{c_str, name_in, utf16z};

const MS: u64 = 1_000_000;
const SEC: u64 = 1_000_000_000;

// Topology churn.

#[test]
fn hold_release_expire() {
    let mut c = Churn::new();
    let now = 5 * SEC;
    c.release();
    assert!(!c.held(now));
    c.hold(now, 60 * SEC);
    assert!(c.held(now));
    // A shorter overlapping hold must not shorten the window.
    c.hold(now, MS);
    assert!(c.held(now));
    c.release();
    assert!(!c.held(now));
    // Self-expiry: a millisecond-scale hold lapses on its own.
    c.hold(now, 30 * MS);
    assert!(c.held(now));
    assert!(!c.held(now + 60 * MS));
}

#[test]
fn generation_moves_only_on_observed_change() {
    let mut c = Churn::new();
    let now = 5 * SEC;
    c.release();
    let g0 = c.generation();
    // Attempted, verified unchanged: the generation stays.
    let t = c.begin("noop", now, 5 * SEC);
    assert!(c.held(now), "a transaction holds following for its deadline");
    let f = c.finish(t, Outcome::Unchanged, now);
    assert_eq!((f.outcome, f.generation), (Outcome::Unchanged, g0));
    // Attempted, verification failed: UNKNOWN, generation stays.
    let t = c.begin("blind", now, 5 * SEC);
    let f = c.finish(t, Outcome::Unknown, now);
    assert_eq!((f.outcome, c.generation()), (Outcome::Unknown, g0));
    // Observed change: exactly one bump.
    let t = c.begin("isolate", now, 5 * SEC);
    let f = c.finish(t, Outcome::Changed, now);
    assert_eq!(
        (f.outcome, f.generation, c.generation()),
        (Outcome::Changed, g0 + 1, g0 + 1)
    );
    assert_eq!(c.last().map(|l| (l.reason, l.id)), Some(("isolate", f.id)));
    // Past its deadline a claimed change is not trusted.
    let t = c.begin("late", now, MS);
    let f = c.finish(t, Outcome::Changed, now + 5 * MS);
    assert_eq!((f.outcome, c.generation()), (Outcome::Unknown, g0 + 1));
    assert_eq!(f.took, 5 * MS);
    c.release();
}

#[test]
fn a_passed_deadline_downgrades_any_outcome() {
    for claimed in [Outcome::Changed, Outcome::Unchanged, Outcome::Unknown] {
        let mut c = Churn::new();
        let t = c.begin("late", 5 * SEC, MS);
        let f = c.finish(t, claimed, 5 * SEC + MS + 1);
        assert_eq!((f.outcome, c.generation()), (Outcome::Unknown, 0));
        assert_eq!(c.last(), Some(f));
        let t = c.begin("in time", 5 * SEC, MS);
        let g = c.finish(t, claimed, 5 * SEC + MS);
        assert_eq!(g.outcome, claimed, "the deadline itself is in time");
        assert_ne!(f, g);
    }
}

#[test]
fn finishing_does_not_release() {
    let mut c = Churn::new();
    let t = c.begin("isolate", 0, SEC);
    c.finish(t, Outcome::Changed, MS);
    assert!(c.held(999 * MS));
    assert!(!c.held(SEC));
}

#[test]
fn sessions_are_compared() {
    assert_eq!(console_session_mismatch(Some(1), 2), Some((1, 2)));
    assert_eq!(console_session_mismatch(Some(2), 2), None);
    assert_eq!(console_session_mismatch(Some(2), 0xFFFF_FFFF), None);
    assert_eq!(console_session_mismatch(None, 2), None);
}

// Monitor device nodes.

fn target(luid: i64, id: u32, active: bool, external: bool) -> TargetInventory {
    TargetInventory {
        key: CcdTargetKey::new(luid, id),
        target_id: id,
        active,
        external_physical: external,
        internal_panel: false,
        tech: "HDMI",
        friendly: "ACME TV".into(),
        monitor_device_path: format!(r"\\?\DISPLAY#ACM{id:04}#5&1&0&UID{id}#{{guid}}"),
        ours: false,
        gdi_name: String::new(),
        x: 0,
        y: 0,
        width: 0,
        height: 0,
        refresh_mhz: 0,
        primary: false,
        hdr: None,
        source_id: 0,
        source_adapter_luid: 0,
    }
}

#[test]
fn a_display_active_before_the_acquire_is_never_a_standby_sink() {
    let keep = [CcdTargetKey::new(9, 257)];
    let inventory = [
        target(1, 100, false, true),
        target(1, 200, false, true),
        target(9, 257, true, false),
    ];
    let baseline_active = [CcdTargetKey::new(1, 100)];
    let picked = select_connected_inactive(&inventory, &keep, &baseline_active);
    assert_eq!(picked.len(), 1, "only the pre-dark sink is selected");
    assert!(picked[0].0.contains("ACM0200"), "picked: {picked:?}");
    // Same-numbered target on ANOTHER adapter must not shadow the baseline entry.
    let alias_baseline = [CcdTargetKey::new(2, 100)];
    let picked = select_connected_inactive(&inventory, &keep, &alias_baseline);
    assert_eq!(
        picked.len(),
        2,
        "adapter 1's target 100 was NOT in this baseline"
    );
}

#[test]
fn internal_and_virtual_panels_are_never_picked() {
    let inventory = [
        target(1, 1, false, false),
        target(1, 2, true, true),
        target(1, 3, false, true),
    ];
    assert!(select_connected_inactive(&inventory, &[CcdTargetKey::new(1, 3)], &[]).is_empty());
    let mut no_device = target(1, 4, false, true);
    no_device.monitor_device_path = String::new();
    assert!(select_connected_inactive(&[no_device], &[], &[]).is_empty());
    let twice = [target(1, 5, false, true), target(1, 5, false, true)];
    let picked = select_connected_inactive(&twice, &[], &[]);
    assert_eq!(
        picked,
        vec![(
            r"DISPLAY\ACM0005\5&1&0&UID5".to_string(),
            "ACME TV (HDMI)".to_string()
        )]
    );
}

#[test]
fn interface_paths_name_instances() {
    assert_eq!(
        instance_id_from_interface_path(r"\\?\DISPLAY#GSM5B08#4&2f0&0&UID1#{e6f07b5f}"),
        Some(r"DISPLAY\GSM5B08\4&2f0&0&UID1".to_string())
    );
    assert_eq!(
        instance_id_from_interface_path(r"\\?\A#{x}#{y}"),
        Some(r"A\{x}".to_string()),
        "the last class ends it"
    );
    assert_eq!(instance_id_from_interface_path(r"DISPLAY#A#{x}"), None);
    assert_eq!(instance_id_from_interface_path(r"\\?\DISPLAY#A"), None);
    assert_eq!(instance_id_from_interface_path(r"\\?\#{x}"), Some(String::new()));
    assert_eq!(instance_id_from_interface_path(""), None);
}

fn ids(list: &[&str]) -> Vec<String> {
    list.iter().map(|s| s.to_string()).collect()
}

#[test]
fn what_is_disabled_is_journaled_first() {
    let inventory = [target(1, 5, false, true), target(1, 6, false, true)];
    let five = r"DISPLAY\ACM0005\5&1&0&UID5".to_string();
    let six = r"DISPLAY\ACM0006\5&1&0&UID6".to_string();
    let plan = disable_connected_inactive(&inventory, &[], &[], vec!["old".into(), six.clone()]);
    assert_eq!(plan.journal, Some(vec!["old".to_string(), six.clone(), five.clone()]));
    assert_eq!(plan.targets.len(), 2);
    assert_eq!(disabled(&plan.targets, &[false, true]), vec![six]);
    let plan = disable_connected_inactive(&[], &[], &[], ids(&["old"]));
    assert_eq!(plan.journal, None, "nothing to disable leaves the journal alone");
    assert!(plan.targets.is_empty());
}

#[test]
fn operator_displays_are_picked_by_their_saved_paths() {
    let path = |luid: i64, id: u32, flags: u32, monitor: Option<(&str, &str)>| SavedPath {
        key: CcdTargetKey::new(luid, id),
        flags,
        monitor: monitor.map(|(a, b)| (a.to_string(), b.to_string())),
    };
    let saved = [
        path(1, 1, 1, Some(("a", "A"))),
        path(1, 2, 0, Some(("b", "B"))),
        path(1, 3, 3, Some(("c", "C"))),
        path(1, 4, 1, None),
        path(9, 9, 1, Some(("ours", "V"))),
        path(1, 5, 1, Some(("a", "A"))),
    ];
    let plan = disable_for_deactivated(&saved, CcdTargetKey::new(9, 9), Vec::new());
    assert_eq!(plan.journal, Some(ids(&["a", "c"])));
    assert_eq!(
        plan.targets,
        vec![
            ("a".to_string(), "A".to_string()),
            ("c".to_string(), "C".to_string())
        ]
    );
}

#[test]
fn a_failed_re_enable_keeps_its_entry() {
    let out = enable_instances(&ids(&["a", "b", "c"]), &[true, false, true], ids(&["x", "b", "a"]));
    assert_eq!(out.count, 2);
    assert_eq!(out.journal, ids(&["x", "b"]));
}

#[test]
fn a_start_recovers_what_the_journal_lists() {
    use_recover(Vec::new(), None);
    use_recover(ids(&["a"]), Some(ids(&["a"])));
}

fn use_recover(journal: Vec<String>, expected: Option<Vec<String>>) {
    assert_eq!(
        punktfunk_core::display::monitor_devnode::startup_recover(journal),
        expected
    );
}

// Journals.

#[test]
fn a_journal_reads_back() {
    let list = ids(&[r"DISPLAY\A\1", "quote \" tab \t", "snowman \u{2603}"]);
    let JournalWrite::Write(bytes) = write_journal(&list) else {
        panic!("something is outstanding");
    };
    assert_eq!(read_journal(Some(&bytes)), list);
    assert!(bytes.starts_with(b"[\n  \"DISPLAY\\\\A\\\\1\""));
    assert_eq!(write_journal(&Vec::new()), JournalWrite::Remove);
}

#[test]
fn an_unreadable_journal_lists_nothing() {
    assert!(read_journal(None).is_empty());
    assert!(read_journal(Some(b"")).is_empty());
    assert!(read_journal(Some(b"{\"a\":1}")).is_empty());
    assert!(read_journal(Some(b"[1]")).is_empty());
    assert_eq!(read_journal(Some(b" [\"a\"] ")), ids(&["a"]));
}

#[test]
fn edid_lock_lease_round_trips_and_reads_the_bare_marker() {
    assert_eq!(decode_journal(&encode_journal(&vec![2, 5])), vec![2, 5]);
    assert!(decode_journal(br#"{"locked":true}"#).is_empty());
    assert!(decode_journal(b"garbage").is_empty());
    assert_eq!(connector_of("adapter0.connector3[HDMI]"), Some(3));
    assert_eq!(connector_of("adapter0"), None);
}

#[test]
fn a_marker_is_an_object_of_a_flag_and_a_list() {
    assert_eq!(
        encode_journal(&vec![-1, i32::MAX]),
        br#"{"connectors":[-1,2147483647],"locked":true}"#.to_vec()
    );
    assert_eq!(
        decode_journal(br#"{"connectors":[1,"x",2147483648,-3,1.5,null]}"#),
        vec![1, -3],
        "only what is a connector's number"
    );
    assert!(decode_journal(br#"{"connectors":7}"#).is_empty());
    assert!(decode_journal(br#"[1,2]"#).is_empty());
}

// Driver buffers.

#[test]
fn buffers_end_at_their_zero() {
    assert_eq!(c_str(b"AMD Radeon\0junk"), "AMD Radeon");
    assert_eq!(c_str(b"full"), "full");
    assert_eq!(c_str(b"\0"), "");
    assert_eq!(c_str(&[0x41, 0xFF, 0x42]), "A\u{FFFD}B");
    assert_eq!(name_in(b"  AMD Radeon \0"), "AMD Radeon");
    assert_eq!(utf16z(&[0x41, 0x2603, 0, 0x42]), "A\u{2603}");
    assert_eq!(utf16z(&[0xD800]), "\u{FFFD}");
    // A pair is one character; a half of one is replaced, and the unit after
    // it is read by itself.
    assert_eq!(utf16z(&[0x41, 0xD83D, 0xDE00, 0x42]), "A\u{1F600}B");
    assert_eq!(utf16z(&[0xD83D, 0x41]), "\u{FFFD}A");
    assert_eq!(utf16z(&[0xDE00, 0xD83D, 0xD83D, 0xDE00]), "\u{FFFD}\u{FFFD}\u{1F600}");
    assert_eq!(utf16z(&[0xDBFF, 0xDFFF, 0xFFFF, 0xE000]), "\u{10FFFF}\u{FFFF}\u{E000}");
    assert_eq!(name_in(b"\t a b\r\n"), "a b");
    assert_eq!(name_in(b" \0x"), "");
}

// Connector emulation.

#[test]
fn driver_codes_have_names() {
    assert_eq!(rc_str(0), "ADL_OK");
    assert_eq!(rc_str(1), "ADL_OK_(warning-class)");
    assert_eq!(rc_str(4), "ADL_OK_(warning-class)");
    assert_eq!(rc_str(5), "?");
    assert_eq!(rc_str(-1), "ADL_ERR");
    assert_eq!(rc_str(-4), "?");
    assert_eq!(rc_str(-8), "ADL_ERR_NOT_SUPPORTED");
    assert_eq!(rc_str(-22), "ADL_ERR_CALL_TO_INCOMPATIABLE_DRIVER");
    assert_eq!(rc_str(-23), "ADL_ERR_NO_ADMINISTRATOR_PRIVILEGES");
    assert_eq!(connector_type_str(8), "HDMI-A");
    assert_eq!(connector_type_str(10), "DP");
    assert_eq!(connector_type_str(14), "USB-C");
    assert_eq!(connector_type_str(4), "unknown");
}

fn rec(op: &'static str, target: &str, rc: i32) -> OpRecord {
    OpRecord {
        op,
        target: target.to_string(),
        took_ms: 12,
        rc,
        extra: String::new(),
    }
}

#[test]
fn a_record_is_a_log_line() {
    let mut r = rec("adl-init", "atiadlxx", 0);
    assert!(r.ok());
    assert_eq!(r.line(), "adl-init atiadlxx took_ms=12 ok=true rc=0(ADL_OK)");
    r.rc = -8;
    r.extra = "mode=3".to_string();
    assert_eq!(
        r.line(),
        "adl-init atiadlxx took_ms=12 ok=false rc=-8(ADL_ERR_NOT_SUPPORTED) mode=3"
    );
}

#[test]
fn targets_name_connectors() {
    assert_eq!(connector_of("adapter12.connector-1[DP]"), Some(-1));
    assert_eq!(connector_of("connector2147483647"), Some(i32::MAX));
    assert_eq!(connector_of("connector2147483648"), None);
    assert_eq!(connector_of("connector-2147483648["), Some(i32::MIN));
    assert_eq!(connector_of("connector[DP]"), None);
    assert_eq!(connector_of("connector3connector4"), Some(3));
    assert_eq!(connector_of("connector3x[DP]"), None);
    assert_eq!(connector_of("connector+7[DP]"), Some(7));
    assert_eq!(connector_of("connector-[DP]"), None);
    assert_eq!(connector_of(""), None);
}

#[test]
fn a_lock_leases_what_it_pinned() {
    let done = RunOutcome::Done(vec![
        rec("adl-lock-set", "adapter0.connector1[DP]", 0),
        rec("adl-lock-mode-always", "adapter0.connector1[DP]", 0),
        rec("adl-lock-mode-always", "adapter0.connector2[DP]", -1),
        rec("adl-lock-mode-always", "adapter0.connector3[DP]", 0),
    ]);
    assert_eq!(leased(&done), vec![1, 3]);
    let r = lock_for_stream(&done);
    assert_eq!((r.lease, r.owed), (Some(vec![1, 3]), true));
    let r = lock_for_stream(&RunOutcome::InitFailed(vec![rec("adl-init", "atiadlxx", -1)]));
    assert_eq!((r.lease, r.owed), (Some(vec![]), true));
    let r = lock_for_stream(&RunOutcome::NoAdl);
    assert_eq!((r.lease, r.owed), (None, false));
    assert!(RunOutcome::NoAdl.records().is_empty());
    assert_eq!(done.records().len(), 4);
}

#[test]
fn an_unlock_walks_the_lease() {
    assert_eq!(unlock_after_stream(&vec![]), vec![None]);
    assert_eq!(unlock_after_stream(&vec![2, 5]), vec![Some(2), Some(5)]);
    assert!(startup_recover(true));
    assert!(!startup_recover(false));
}

#[test]
fn one_failure_keeps_the_marker() {
    let good = || RunOutcome::Done(vec![rec("adl-unlock-remove", "x", 0)]);
    let bad = || RunOutcome::Done(vec![rec("adl-unlock-mode-off", "x", -8)]);
    assert!(marker_may_go(&vec![good(), RunOutcome::NoAdl]));
    assert!(!marker_may_go(&vec![good(), bad()]));
    assert!(!marker_may_go(&vec![RunOutcome::InitFailed(vec![])]));
    assert!(marker_may_go(&vec![]));
}

#[test]
fn a_mode_off_that_is_not_supported_is_expected() {
    let r = rec("adl-unlock-mode-off", "x", -8);
    assert!(is_expected_noop(&r) && !is_alarming(&r));
    let r = rec("adl-unlock-remove", "x", -8);
    assert!(!is_expected_noop(&r) && is_alarming(&r));
    let r = rec("adl-unlock-mode-off", "x", -1);
    assert!(!is_expected_noop(&r) && is_alarming(&r));
    assert!(!is_alarming(&rec("x", "x", 0)));
}

// The walk.

fn adapter(index: i32, bus: i32, vendor: i32, present: i32) -> Adapter {
    Adapter {
        index,
        bus,
        vendor,
        present,
        name: "Radeon".to_string(),
    }
}

fn walk_to_connectors(action: EmulAction, filter: Option<i32>) -> (Walk, Next) {
    let mut w = Walk::new(action, filter);
    assert_eq!(w.start(), Next::Call(Call::Create));
    assert_eq!(w.on_created(3, 0), Next::Call(Call::Count));
    assert_eq!(w.on_count(0, 3), Next::Call(Call::Adapters(3)));
    let adapters = vec![
        adapter(0, 3, 1002, 1),
        adapter(1, 3, 1002, 1),
        adapter(2, 5, 4318, 1),
    ];
    assert_eq!(w.on_adapters(0, adapters), Next::Call(Call::Caps(0)));
    assert!(w.at_adapter() && !w.at_connector());
    assert_eq!(w.on_caps(1, 0, 1), Next::Call(Call::Layout(0)));
    let connectors = vec![
        Connector { index: 0, kind: 10 },
        Connector { index: 4, kind: 8 },
    ];
    let next = w.on_layout(2, 0, 0x1F, 2, connectors);
    (w, next)
}

fn ops(w: &Walk) -> Vec<&'static str> {
    w.recs.iter().map(|r| r.op).collect()
}

#[test]
fn a_lock_pins_what_is_occupied() {
    let (mut w, next) = walk_to_connectors(EmulAction::Lock, None);
    assert_eq!(next, Next::Call(Call::State { adapter: 0, connector: 0 }));
    // Nothing on the first connector.
    assert_eq!(
        w.on_state(0, 0, 0, 0, 0),
        Next::Call(Call::State { adapter: 0, connector: 4 })
    );
    assert_eq!(
        w.on_state(0, 0, 0x5, 0, 2),
        Next::Call(Call::Read { adapter: 0, connector: 4, own: true })
    );
    assert_eq!(
        w.on_read(true, 5, -1, 0, 0),
        Next::Call(Call::Read { adapter: 0, connector: 4, own: false })
    );
    assert_eq!(
        w.on_read(false, 11, 0, 8, 256),
        Next::Call(Call::Pin { adapter: 0, connector: 4 })
    );
    assert_eq!(
        w.on_pinned(1, 0),
        Next::Call(Call::Mode { adapter: 0, connector: 4, mode: 3 })
    );
    assert_eq!(w.on_mode(1, 0), Next::Over { destroy: true, done: true });
    assert_eq!(
        ops(&w),
        vec![
            "adl-init",
            "adl-adapters",
            "adl-adapter-seen",
            "adl-adapter-seen",
            "adl-edid-caps",
            "adl-board-layout",
            "adl-conn-state",
            "adl-conn-state",
            "adl-lock-read",
            "adl-lock-set",
            "adl-lock-mode-always",
        ]
    );
    assert_eq!(w.recs[1].extra, "count=3");
    assert_eq!(w.recs[2].target, "bus3");
    assert_eq!(w.recs[2].extra, "vendor_id=1002 present=1 name=Radeon");
    assert_eq!(w.recs[4].target, "adapter0[Radeon]");
    assert_eq!(w.recs[5].extra, "connectors=2 valid_flags=0x1f");
    assert_eq!(w.recs[7].target, "adapter0.connector4[HDMI-A]");
    assert_eq!(
        w.recs[7].extra,
        "status=0x5 real_connected=true emulated_present=false emulated_used=true mode=0 display=2"
    );
    assert_eq!((w.recs[8].took_ms, w.recs[8].extra.as_str()), (11, "type=8 edid_bytes=256"));
    let outcome = w.outcome(true);
    assert_eq!(leased(&outcome), vec![4]);
}

#[test]
fn a_pin_that_was_there_before_is_left_alone() {
    let (mut w, _) = walk_to_connectors(EmulAction::Lock, None);
    assert_eq!(
        w.on_state(0, 0, 0x7, 3, 0),
        Next::Call(Call::State { adapter: 0, connector: 4 })
    );
    let last = w.recs.last().unwrap();
    assert_eq!((last.op, last.extra.as_str()), ("adl-lock-skip-preexisting", "mode=3"));
    // A refused state read goes on too, and a read of nothing pins nothing.
    assert_eq!(w.on_state(0, -8, 0, 0, 0), Next::Over { destroy: true, done: true });
    let (mut w, _) = walk_to_connectors(EmulAction::Lock, Some(4));
    assert_eq!(
        w.on_state(0, 0, 0, 3, 0),
        Next::Call(Call::Read { adapter: 0, connector: 4, own: true }),
        "a connector that is named is locked whatever its state"
    );
    assert_eq!(w.on_read(true, 0, 0, 8, 0), Next::Over { destroy: true, done: true });
    assert!(leased(&w.outcome(true)).is_empty());
}

#[test]
fn an_unlock_turns_off_and_removes() {
    let (mut w, next) = walk_to_connectors(EmulAction::Unlock, Some(4));
    assert_eq!(next, Next::Call(Call::State { adapter: 0, connector: 4 }));
    assert_eq!(
        w.on_state(0, 0, 0x2, 3, 0),
        Next::Call(Call::Mode { adapter: 0, connector: 4, mode: 0 })
    );
    assert_eq!(
        w.on_mode(0, -8),
        Next::Call(Call::Remove { adapter: 0, connector: 4 })
    );
    assert_eq!(w.on_removed(0, 0), Next::Over { destroy: true, done: true });
    assert!(w.outcome(true).unlocked() == false, "the mode call did not succeed");
}

#[test]
fn a_probe_reads_only() {
    let (mut w, _) = walk_to_connectors(EmulAction::Probe, None);
    assert_eq!(
        w.on_state(0, 0, 0, 0, 0),
        Next::Call(Call::Read { adapter: 0, connector: 0, own: true })
    );
    assert_eq!(
        w.on_read(true, 0, -1, 0, 0),
        Next::Call(Call::State { adapter: 0, connector: 4 })
    );
    assert_eq!(w.recs.last().unwrap().op, "adl-conn-data");
    let mut w = Walk::new(EmulAction::Probe, None);
    w.on_created(0, 0);
    w.on_count(0, 1);
    assert_eq!(
        w.on_adapters(0, vec![adapter(7, 1, 1002, 0)]),
        Next::Call(Call::Caps(7)),
        "a probe asks an adapter that drives nothing"
    );
    assert_eq!(w.on_caps(0, -8, 0), Next::Call(Call::Layout(7)));
    assert_eq!(
        w.on_layout(0, -8, 0, 1, vec![Connector { index: 0, kind: 1 }]),
        Next::Over { destroy: true, done: true },
        "what a failed call listed is not believed"
    );
}

#[test]
fn a_walk_that_cannot_start_says_so() {
    let mut w = Walk::new(EmulAction::Lock, None);
    assert_eq!(w.on_created(0, -2), Next::Over { destroy: false, done: false });
    assert!(matches!(w.outcome(false), RunOutcome::InitFailed(_)));
    let mut w = Walk::new(EmulAction::Lock, None);
    w.on_created(0, 0);
    assert_eq!(w.on_count(0, 0), Next::Over { destroy: true, done: false });
    assert_eq!(w.recs.last().unwrap().extra, "count=0");
    let mut w = Walk::new(EmulAction::Lock, None);
    w.on_created(0, 0);
    w.on_count(0, 2);
    assert_eq!(w.on_adapters(-1, Vec::new()), Next::Over { destroy: true, done: false });
    let mut w = Walk::new(EmulAction::Lock, None);
    w.on_created(0, 0);
    w.on_count(0, 1);
    assert_eq!(
        w.on_adapters(0, vec![adapter(7, 1, 1002, 0)]),
        Next::Over { destroy: true, done: true },
        "a lock needs the adapter present"
    );
}
