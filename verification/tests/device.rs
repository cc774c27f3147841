use opentartarus::constants::{
    USB_PID_NAGA_PRO_1, USB_PID_TARTARUS_PRO, USB_PID_TARTARUS_V2, USB_VID_RAZER,
};
use opentartarus::device::{
    busy_decision, classify_device_io, classify_input_id, detect_status, device_ui_state,
    display_holder_name, grab_conflict_message, grab_conflict_status_value, grab_targets,
    hid_catalog_from_names, holders_from_proc, is_lighting_holder, lookup_event_holders,
    merge_catalog, node_role_from_proc_block, ProcProcess,
    parse_fuser_verbose, parse_hid_bus_id, parse_proc_input_devices, pick_first,
    scan_interval_ms, snapshot_changed, BusyDecision, DetectStatus, Detected, DeviceIoKind,
    NodeRole, OPENRAZER_DAEMON_NAME, SCAN_INTERVAL_ACTIVE_MS, SCAN_INTERVAL_MISSING_MS,
};
use opentartarus::error::ErrorCode;
use opentartarus::remap::allow_grab;
use opentartarus::types::DeviceModel;

const PROC_V2_AND_NAGA: &str = "\
I: Bus=0003 Vendor=1532 Product=008f Version=0111
N: Name=\"Razer Naga Pro\"
H: Handlers=event22 mouse0

I: Bus=0003 Vendor=1532 Product=022b Version=0111
N: Name=\"Razer Razer Tartarus V2\"
H: Handlers=sysrq kbd leds event270
B: EV=120013
B: LED=7

I: Bus=0003 Vendor=1532 Product=022b Version=0111
N: Name=\"Razer Razer Tartarus V2\"
H: Handlers=sysrq kbd event271
B: EV=10001f
B: REL=1040
B: ABS=10100000000

I: Bus=0003 Vendor=1532 Product=022b Version=0111
N: Name=\"Razer Razer Tartarus V2\"
H: Handlers=event272 mouse10
B: EV=17
B: REL=903

I: Bus=0003 Vendor=1234 Product=5678 Version=0111
N: Name=\"OpenTartarus Keyboard\"
H: Handlers=sysrq kbd event273
";

const FUSER_OPENRAZER: &str = "\
                     USER        PID ACCESS COMMAND
/dev/input/event270: shane      5782 f.... openrazer-daemo
/dev/input/event271: shane      5782 f.... openrazer-daemo
";

const FUSER_REMAPPER: &str = "\
                     USER        PID ACCESS COMMAND
/dev/input/event271: root       4169 F.... input-remapper
";

fn v2_detected(nodes: &[&str]) -> Detected {
    Detected {
        model: DeviceModel::V2,
        vid: USB_VID_RAZER,
        pid: USB_PID_TARTARUS_V2,
        nodes: nodes.iter().map(|s| s.to_string()).collect(),
        grab_nodes: Vec::new(),
    }
}

#[test]
fn naga_is_never_classified() {
    assert!(classify_input_id(USB_VID_RAZER, USB_PID_NAGA_PRO_1).is_none());
    assert!(!allow_grab(USB_VID_RAZER, USB_PID_NAGA_PRO_1));
    assert_eq!(
        classify_input_id(USB_VID_RAZER, USB_PID_TARTARUS_V2),
        Some(DeviceModel::V2)
    );
    assert_eq!(
        classify_input_id(USB_VID_RAZER, USB_PID_TARTARUS_PRO),
        Some(DeviceModel::Pro)
    );
}

#[test]
fn first_enumerated_wins() {
    let a = Detected {
        model: DeviceModel::Pro,
        vid: USB_VID_RAZER,
        pid: USB_PID_TARTARUS_PRO,
        nodes: vec![],
        grab_nodes: vec![],
    };
    let b = v2_detected(&[]);
    assert_eq!(pick_first(vec![a, b]).unwrap().model, DeviceModel::Pro);
    assert!(pick_first(vec![]).is_none());
}

#[test]
fn busy_is_grab_conflict() {
    assert_eq!(
        grab_conflict_message("EBUSY: Device or resource busy"),
        ErrorCode::GrabConflict
    );
}

#[test]
fn access_denied_is_permission_not_missing() {
    assert_eq!(
        grab_conflict_message("Permission denied (os error 13)"),
        ErrorCode::Permission
    );
    assert_eq!(grab_conflict_message("EACCES"), ErrorCode::Permission);
}

#[test]
fn proc_finds_v2_by_vid_pid_despite_openrazer_name() {
    let found = parse_proc_input_devices(PROC_V2_AND_NAGA);
    assert_eq!(found.len(), 1);
    assert_eq!(found[0].model, DeviceModel::V2);
    assert_eq!(found[0].vid, USB_VID_RAZER);
    assert_eq!(found[0].pid, USB_PID_TARTARUS_V2);
    assert_eq!(
        found[0].nodes,
        vec![
            "/dev/input/event270".to_string(),
            "/dev/input/event271".to_string(),
            "/dev/input/event272".to_string(),
        ]
    );
    assert_eq!(
        grab_targets(&found[0]),
        &vec![
            "/dev/input/event271".to_string(),
            "/dev/input/event272".to_string(),
        ]
    );
}

#[test]
fn extra_keys_and_mouse_are_remap_targets_boot_kbd_is_not() {
    assert_eq!(
        node_role_from_proc_block("H: Handlers=sysrq kbd leds event270\nB: EV=120013\nB: LED=7\n"),
        NodeRole::BootKeyboard
    );
    assert_eq!(
        node_role_from_proc_block("H: Handlers=sysrq kbd event271\nB: REL=1040\nB: ABS=10100000000\n"),
        NodeRole::ExtraKeys
    );
    assert_eq!(
        node_role_from_proc_block("H: Handlers=event272 mouse10\nB: REL=903\n"),
        NodeRole::Mouse
    );
}

#[test]
fn evdev_busy_is_grab_conflict_not_not_found() {
    assert_eq!(
        classify_device_io(DeviceIoKind::EvdevGrab, "Device or resource busy (os error 16)"),
        ErrorCode::GrabConflict
    );
    assert_ne!(
        classify_device_io(DeviceIoKind::EvdevGrab, "Device or resource busy (os error 16)"),
        ErrorCode::NotFound
    );
    assert_eq!(
        classify_device_io(DeviceIoKind::EvdevOpen, "No such file or directory (os error 2)"),
        ErrorCode::Permission
    );
    assert_ne!(
        classify_device_io(DeviceIoKind::EvdevOpen, "No such file or directory (os error 2)"),
        ErrorCode::NotFound
    );
    let missing = device_ui_state(DetectStatus::Missing, None, false);
    assert!(!missing.present);
    assert!(!missing.grab_conflict);
}

#[test]
fn uinput_busy_is_permission_not_grab_conflict() {
    assert_eq!(
        classify_device_io(DeviceIoKind::Uinput, "Device or resource busy (os error 16)"),
        ErrorCode::Permission
    );
    assert_ne!(
        classify_device_io(DeviceIoKind::Uinput, "EBUSY"),
        ErrorCode::GrabConflict
    );
}

#[test]
fn openrazer_holder_is_shared_not_conflict() {
    let holders = parse_fuser_verbose(FUSER_OPENRAZER);
    assert_eq!(holders, vec!["openrazer-daemo".to_string()]);
    assert_eq!(busy_decision(&holders), BusyDecision::Share);
    assert_eq!(display_holder_name("openrazer-daemo"), OPENRAZER_DAEMON_NAME);
}

#[test]
fn remapper_ebusy_is_grab_conflict_with_process_name() {
    let holders = parse_fuser_verbose(FUSER_REMAPPER);
    assert_eq!(
        busy_decision(&holders),
        BusyDecision::Conflict {
            holder: Some("input-remapper".to_string())
        }
    );
    assert_eq!(
        grab_conflict_status_value(Some("input-remapper")),
        "input-remapper"
    );
    assert_eq!(
        grab_conflict_status_value(None),
        ErrorCode::GrabConflict.user_message()
    );
    let ui = device_ui_state(DetectStatus::Present, Some(DeviceModel::V2), true);
    assert!(ui.present);
    assert!(ui.grab_conflict);
    assert_eq!(detect_status(None, |_: &String| true), DetectStatus::Missing);
}

#[test]
fn empty_proc_is_missing_unless_hid_lists_tartarus() {
    assert!(parse_proc_input_devices("").is_empty());
    assert_eq!(detect_status(None, |_: &String| true), DetectStatus::Missing);
    let hid = hid_catalog_from_names(&[
        "0003:1532:008F.0002",
        "0003:1532:022B.0019",
        "0003:1532:022B.001A",
    ]);
    assert_eq!(hid.len(), 1);
    assert_eq!(hid[0].pid, USB_PID_TARTARUS_V2);
    assert!(hid[0].nodes.is_empty());
    assert_eq!(
        detect_status(hid.first(), |_: &String| true),
        DetectStatus::Permission
    );
    let merged = merge_catalog(Vec::new(), hid);
    assert_eq!(
        detect_status(merged.first(), |_: &String| false),
        DetectStatus::Permission
    );
}

#[test]
fn unreadable_evdev_nodes_are_permission_not_missing() {
    let found = v2_detected(&["/dev/input/event270", "/dev/input/event271"]);
    let status = detect_status(Some(&found), |_path: &String| false);
    assert_eq!(status, DetectStatus::Permission);
    let ui = device_ui_state(status, Some(DeviceModel::V2), false);
    assert!(ui.present);
    assert!(!ui.evdev_ok);
    assert!(!ui.grab_conflict);
}

#[test]
fn readable_nodes_are_present() {
    let found = v2_detected(&["/dev/input/event270"]);
    let status = detect_status(Some(&found), |_: &String| true);
    assert_eq!(status, DetectStatus::Present);
    let busy = device_ui_state(status, Some(DeviceModel::V2), true);
    assert!(busy.present);
    assert!(busy.evdev_ok);
    assert!(busy.grab_conflict);
}

#[test]
fn device_changed_emits_only_when_snapshot_changes() {
    let missing = device_ui_state(DetectStatus::Missing, None, false);
    let permission = device_ui_state(DetectStatus::Permission, Some(DeviceModel::V2), false);
    assert!(snapshot_changed(&missing, &permission));
    assert!(!snapshot_changed(&permission, &permission));
    assert_eq!(scan_interval_ms(false), SCAN_INTERVAL_MISSING_MS);
    assert_eq!(scan_interval_ms(true), SCAN_INTERVAL_ACTIVE_MS);
    assert!(SCAN_INTERVAL_MISSING_MS > SCAN_INTERVAL_ACTIVE_MS);
}

#[test]
fn hid_name_parse_is_case_insensitive_hex() {
    assert_eq!(
        parse_hid_bus_id("0003:1532:022B.0019"),
        Some((USB_VID_RAZER, USB_PID_TARTARUS_V2))
    );
    assert_eq!(
        parse_hid_bus_id("0003:1532:022b.001a"),
        Some((USB_VID_RAZER, USB_PID_TARTARUS_V2))
    );
    assert_eq!(
        parse_hid_bus_id("0003:1532:008F.0002"),
        Some((USB_VID_RAZER, USB_PID_NAGA_PRO_1))
    );
    assert!(classify_input_id(USB_VID_RAZER, USB_PID_NAGA_PRO_1).is_none());
}

#[test]
fn malformed_hid_names_give_no_ids() {
    assert_eq!(parse_hid_bus_id("0003:1532"), None);
    assert_eq!(parse_hid_bus_id("0003:zz:022b.0001"), None);
    assert_eq!(parse_hid_bus_id("0003:1532:12345.0001"), None);
    assert_eq!(parse_hid_bus_id("0003:+1532:022b"), Some((USB_VID_RAZER, USB_PID_TARTARUS_V2)));
}

#[test]
fn two_pads_are_listed_in_first_seen_order() {
    let text = "I: Bus=0003 Vendor=1532 Product=0244 Version=0111\nH: Handlers=event5\n\n\
I: Bus=0003 Vendor=1532 Product=022b Version=0111\nH: Handlers=kbd event9\n\n\
I: Bus=0003 Vendor=1532 Product=0244 Version=0111\nH: Handlers=event6 mouse2\n";
    let found = parse_proc_input_devices(text);
    assert_eq!(found.len(), 2);
    assert_eq!(found[0].model, DeviceModel::Pro);
    assert_eq!(found[0].nodes, vec!["/dev/input/event5".to_string(), "/dev/input/event6".to_string()]);
    assert_eq!(found[0].grab_nodes, vec!["/dev/input/event6".to_string()]);
    assert_eq!(found[1].model, DeviceModel::V2);
    assert_eq!(found[1].grab_nodes, found[1].nodes);
}

#[test]
fn only_lighting_programs_are_shared() {
    assert!(is_lighting_holder("OpenRGB"));
    assert!(is_lighting_holder("polychromatic-tray"));
    assert!(!is_lighting_holder("steam"));
    assert_eq!(busy_decision(&[]), BusyDecision::Conflict { holder: None });
    assert_eq!(
        busy_decision(&["openrgb".to_string(), "OpenRazer-daemon".to_string(), "steam".to_string()]),
        BusyDecision::Conflict {
            holder: Some("steam".to_string())
        }
    );
    assert_eq!(grab_conflict_status_value(Some("")), ErrorCode::GrabConflict.user_message());
    assert_eq!(grab_conflict_status_value(Some("OpenRazer-d")), "openrazer-daemon");
}

fn process(dir: &str, holds: bool, comm: Option<&str>) -> ProcProcess {
    ProcProcess {
        dir_name: dir.to_string(),
        holds_node: holds,
        comm: comm.map(str::to_string),
    }
}

#[test]
fn proc_holders_are_trimmed_deduped_and_need_a_pid_dir() {
    let procs = vec![
        process("self", true, Some("bash\n")),
        process("42", true, Some("input-remapper\n")),
        process("43", false, Some("gnome-shell\n")),
        process("44", true, Some("  \n")),
        process("45", true, None),
        process("46", true, Some("input-remapper")),
        process("47", true, Some("openrazer-daemon\n")),
    ];
    assert_eq!(
        holders_from_proc(&procs),
        vec!["input-remapper".to_string(), "openrazer-daemon".to_string()]
    );
}

#[test]
fn fuser_is_asked_only_when_proc_shows_nobody() {
    let procs = vec![process("42", true, Some("evtest\n"))];
    let held = lookup_event_holders(&procs, || panic!("fuser must not run"));
    assert_eq!(held, vec!["evtest".to_string()]);
    let fuser = "                     USER        PID ACCESS COMMAND\n/dev/input/event5:    root       1234 F.... input-remapper\n";
    let held = lookup_event_holders(&Vec::new(), || fuser.to_string());
    assert_eq!(held, vec!["input-remapper".to_string()]);
}
