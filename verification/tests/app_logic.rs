use opentartarus::daemon::{device_step, DeviceChange, DeviceFacts};
use opentartarus::daemon::{
    announcements_after, log_should_rotate, quits_after, Announcement, ReplyFacts, LOG_MAX_BYTES,
};
use opentartarus::binpath::cargo_bin_exe_var;
use opentartarus::daemon::{
    capture_from_event, device_event_params, idle_sleep_ms, method_replaces_engine,
    mouse_button_from_code, record_reason_wire, route_physical_event, commit_if_engine_replaced, engine_still_current, EngineEpoch,
    usb_id_hex, Capture, PhysicalRoute,
};
use opentartarus::error::ErrorCode;
use opentartarus::ipc::{
    request_error_message, request_parse_error, EnvelopeType, EventMethod, Method, WireError,
    NOT_RECORDING_MESSAGE, UNKNOWN_METHOD_MESSAGE,
};
use opentartarus::keymap::{token_to_evdev, EV_REL};
use opentartarus::paths::Paths;
use opentartarus::record::RecordReason;
use opentartarus::remap::{Emitted, RawEvent};
use opentartarus::tray::{
    rgba_to_argb, tray_cmd_requests_quit, tray_menu_labels, tray_name_from_profile_id,
    tray_profile_submenu_labels, tray_tooltip, TrayCmd, MENU_OPEN, MENU_PROFILES, MENU_QUIT,
};
use opentartarus::pack::SHIPPED_IDS;
use opentartarus::types::{DeviceModel, KeyToken, MouseButton, MouseTarget, ScrollDir};
use opentartarus::uinput::{routes_to_keyboard, token_from_evdev, KEYBOARD_NAME, MOUSE_NAME};

#[test]
fn cargo_bin_exe_var_replaces_hyphens() {
    assert_eq!(
        cargo_bin_exe_var("opentartarus-daemon"),
        "CARGO_BIN_EXE_opentartarus_daemon"
    );
    assert_eq!(cargo_bin_exe_var("plain"), "CARGO_BIN_EXE_plain");
}

#[test]
fn paths_live_under_the_app_directory() {
    let p = Paths::from_dirs("/home/u/.config".into(), "/run/user/1000/".into(), "/home/u/.local/state".into());
    assert_eq!(p.config_dir, "/home/u/.config/opentartarus");
    assert_eq!(p.profiles_dir, "/home/u/.config/opentartarus/profiles");
    assert_eq!(p.state_file, "/home/u/.config/opentartarus/state.json");
    assert_eq!(p.socket, "/run/user/1000/opentartarus/daemon.sock");
    assert_eq!(p.log_file, "/home/u/.local/state/opentartarus/opentartarus.log");
}

#[test]
fn virtual_device_names_match_spec() {
    assert_eq!(KEYBOARD_NAME, "OpenTartarus Keyboard");
    assert_eq!(MOUSE_NAME, "OpenTartarus Mouse");
    assert_eq!(EV_REL, 2);
}

#[test]
fn every_key_code_reads_back_as_its_key() {
    for token in [KeyToken::Q, KeyToken::Num0, KeyToken::F12, KeyToken::NumEnter, KeyToken::LeftAlt] {
        assert_eq!(token_from_evdev(token_to_evdev(token)), Some(token));
    }
    assert_eq!(token_from_evdev(0), None);
    assert_eq!(token_from_evdev(272), None);
}

#[test]
fn wheel_and_buttons_go_to_the_mouse() {
    let key = Emitted { keyboard: true, ev_type: 1, code: 30, value: 1 };
    assert!(routes_to_keyboard(&key));
    assert!(!routes_to_keyboard(&Emitted { code: 272, ..key }));
    assert!(!routes_to_keyboard(&Emitted { ev_type: 2, code: 8, ..key }));
    assert!(!routes_to_keyboard(&Emitted { keyboard: false, ..key }));
}

#[test]
fn the_top_level_menu_is_three_entries_long() {
    let labels = tray_menu_labels("Default");
    assert_eq!(
        labels,
        vec![
            String::from(MENU_PROFILES),
            String::from(MENU_OPEN),
            String::from(MENU_QUIT),
        ],
        "profiles must not flood the top level"
    );
}

#[test]
fn closed_tray_channel_is_not_quit() {
    assert!(!tray_cmd_requests_quit(None));
    assert!(tray_cmd_requests_quit(Some(TrayCmd::Quit)));
    assert!(!tray_cmd_requests_quit(Some(TrayCmd::Open)));
    assert!(!tray_cmd_requests_quit(Some(TrayCmd::ApplyProfile("default".into()))));
}

#[test]
fn the_tooltip_names_the_active_profile() {
    assert_eq!(tray_tooltip("League of Legends"), "OpenTartarus — League of Legends");
}

#[test]
fn the_pixmap_is_argb_not_rgba() {
    assert_eq!(rgba_to_argb(&[1, 2, 3, 4, 5, 6, 7, 8, 9]), vec![4, 1, 2, 3, 8, 5, 6, 7]);
    assert!(rgba_to_argb(&[]).is_empty());
}

#[test]
fn record_params_cover_wheel_buttons_and_keys() {
    let ev = RawEvent { vid: 0x1532, pid: 0x022b, ev_type: 2, code: 8, value: -1 };
    assert_eq!(
        capture_from_event(&ev),
        Some(Capture::Mouse(MouseTarget::Scroll { scroll: ScrollDir::Down }))
    );
    let left = RawEvent { ev_type: 1, code: 272, value: 1, ..ev };
    assert_eq!(
        capture_from_event(&left),
        Some(Capture::Mouse(MouseTarget::Button { button: MouseButton::Left }))
    );
    let q = RawEvent { ev_type: 1, code: 16, value: 1, ..ev };
    assert_eq!(capture_from_event(&q), Some(Capture::Key(KeyToken::Q)));
    assert_eq!(capture_from_event(&RawEvent { ev_type: 3, ..q }), None);
    assert_eq!(route_physical_event(true, &q), PhysicalRoute::Record(Capture::Key(KeyToken::Q)));
    assert_eq!(route_physical_event(false, &q), PhysicalRoute::Remap);
    assert_eq!(route_physical_event(true, &RawEvent { value: 0, ..q }), PhysicalRoute::Remap);
    assert_eq!(mouse_button_from_code(275), Some(MouseButton::Back));
    assert_eq!(mouse_button_from_code(30), None);
}

#[test]
fn device_events_carry_hex_ids() {
    assert_eq!(usb_id_hex(0x1532), "1532");
    assert_eq!(usb_id_hex(0x22b), "022b");
    let p = device_event_params(true, Some(DeviceModel::Pro));
    assert_eq!(p.vid.as_deref(), Some("1532"));
    assert_eq!(p.pid.as_deref(), Some("0244"));
    let gone = device_event_params(false, Some(DeviceModel::V2));
    assert!(!gone.present && gone.model.is_none() && gone.vid.is_none());
    assert_eq!(record_reason_wire(RecordReason::Disconnected), "disconnected");
    assert_eq!(idle_sleep_ms(true), 10);
    assert_eq!(idle_sleep_ms(false), 250);
}

#[test]
fn only_engine_building_requests_move_the_epoch() {
    assert!(method_replaces_engine(Method::SetBinding));
    assert!(!method_replaces_engine(Method::SetLighting));
    let mut epoch = EngineEpoch::new();
    assert_eq!(epoch.load(), 0);
    commit_if_engine_replaced(true, Some(Method::ApplyProfile), &mut epoch);
    assert_eq!(epoch.load(), 1);
    commit_if_engine_replaced(false, Some(Method::ApplyProfile), &mut epoch);
    commit_if_engine_replaced(true, None, &mut epoch);
    commit_if_engine_replaced(true, Some(Method::SetLighting), &mut epoch);
    assert_eq!(epoch.load(), 1);
    epoch.bump();
    assert_eq!(epoch.load(), 2);
    assert_eq!(EngineEpoch::default().load(), 0);
}

#[test]
fn an_engine_taken_before_an_apply_does_not_go_back() {
    let mut epoch = EngineEpoch::new();
    let at_take = epoch.load();
    commit_if_engine_replaced(true, Some(Method::SetLighting), &mut epoch);
    assert!(engine_still_current(epoch.load(), at_take));
    commit_if_engine_replaced(true, Some(Method::SetBinding), &mut epoch);
    assert!(!engine_still_current(epoch.load(), at_take));
}

#[test]
fn method_names_read_back() {
    assert_eq!(Method::from_wire_name("GetStatus"), Some(Method::GetStatus));
    assert_eq!(Method::from_wire_name("Explode"), None);
    assert_eq!(Method::QuitDaemon.wire_name(), "QuitDaemon");
    assert_eq!(EventMethod::from_wire_name("DeviceChanged"), Some(EventMethod::DeviceChanged));
    assert_eq!(EnvelopeType::from_wire_name("event"), Some(EnvelopeType::Event));
    assert_eq!(EnvelopeType::Req.wire_name(), "req");
}

#[test]
fn unknown_method_is_not_found() {
    let err = request_parse_error(true);
    assert_eq!(err.code, ErrorCode::NotFound);
    assert_eq!(err.message, "Unknown method");
    assert_eq!(UNKNOWN_METHOD_MESSAGE, "Unknown method");
    let other = request_parse_error(false);
    assert_eq!(other, WireError::from_code(ErrorCode::InvalidProfile));
}

#[test]
fn submit_without_recording_reads_not_recording() {
    assert_eq!(
        request_error_message(ErrorCode::NotFound, Some(Method::SubmitRecord)),
        NOT_RECORDING_MESSAGE
    );
    assert_eq!(
        request_error_message(ErrorCode::NotFound, Some(Method::ApplyProfile)),
        "That profile isn’t installed."
    );
}

fn encode_png(width: u32, height: u32, color: png::ColorType, data: &[u8]) -> Vec<u8> {
    let mut bytes = Vec::new();
    {
        let mut encoder = png::Encoder::new(&mut bytes, width, height);
        encoder.set_color(color);
        encoder.set_depth(png::BitDepth::Eight);
        let mut writer = encoder.write_header().unwrap();
        writer.write_image_data(data).unwrap();
        writer.finish().unwrap();
    }
    bytes
}

#[test]
fn an_rgba_icon_decodes_to_its_pixels() {
    let pixels = [1u8, 2, 3, 4, 5, 6, 7, 8];
    let bytes = encode_png(2, 1, png::ColorType::Rgba, &pixels);
    let (w, h, rgba) = opentartarus::tray::tray_icon_rgba(&bytes).unwrap();
    assert_eq!((w, h), (2, 1));
    assert_eq!(rgba, pixels.to_vec());
    assert_eq!(rgba_to_argb(&rgba), vec![4, 1, 2, 3, 8, 5, 6, 7]);
}

#[test]
fn an_icon_that_is_not_rgba_or_not_png_gives_none() {
    let bytes = encode_png(1, 1, png::ColorType::Rgb, &[9, 9, 9]);
    assert_eq!(opentartarus::tray::tray_icon_rgba(&bytes), None);
    assert_eq!(opentartarus::tray::tray_icon_rgba(b"not a png"), None);
    let frame = opentartarus::tray::DecodedImage {
        width: 1,
        height: 1,
        color_type: opentartarus::tray::PNG_COLOR_RGBA,
        bit_depth: 16,
        pixels: vec![0; 8],
    };
    assert_eq!(opentartarus::tray::icon_from_frame(frame), None);
}

#[test]
fn the_log_moves_aside_only_when_a_line_would_pass_the_limit() {
    assert!(!log_should_rotate(0, LOG_MAX_BYTES + 5));
    assert!(!log_should_rotate(LOG_MAX_BYTES - 10, 10));
    assert!(log_should_rotate(LOG_MAX_BYTES - 10, 11));
    assert!(log_should_rotate(u64::MAX, 1));
}

const DAEMON: &str = "opentartarus-daemon";

fn lookup(current_exe: Option<&str>, env: &[(&str, &str)], present: &[&str]) -> String {
    let var = |key: &str| env.iter().find(|(k, _)| *k == key).map(|(_, v)| *v);
    let bin_var = cargo_bin_exe_var(DAEMON);
    opentartarus::binpath::resolve_bin(
        DAEMON,
        current_exe,
        var(&bin_var),
        var("CARGO_TARGET_DIR"),
        var("CARGO_MANIFEST_DIR"),
        |path: &String| present.iter().any(|p| *p == path.as_str()),
    )
}

#[test]
fn sibling_of_current_exe_wins() {
    let found = lookup(
        Some("/repo/target/debug/opentartarus-ui"),
        &[],
        &["/repo/target/debug/opentartarus-daemon"],
    );
    assert_eq!(found, "/repo/target/debug/opentartarus-daemon");
}

#[test]
fn cargo_bin_exe_used_when_sibling_missing() {
    let env = [(
        "CARGO_BIN_EXE_opentartarus_daemon",
        "/workspace/target/debug/opentartarus-daemon",
    )];
    let found = lookup(
        Some("/usr/bin/opentartarus-ui"),
        &env,
        &["/workspace/target/debug/opentartarus-daemon"],
    );
    assert_eq!(found, "/workspace/target/debug/opentartarus-daemon");
}

#[test]
fn cargo_target_dir_debug_used_from_cargo_run() {
    let env = [("CARGO_TARGET_DIR", "/tmp/ot-target")];
    let found = lookup(
        Some("/usr/bin/opentartarus-ui"),
        &env,
        &["/tmp/ot-target/debug/opentartarus-daemon"],
    );
    assert_eq!(found, "/tmp/ot-target/debug/opentartarus-daemon");
}

#[test]
fn cargo_manifest_dir_finds_workspace_target_debug() {
    let env = [("CARGO_MANIFEST_DIR", "/repo/crates/opentartarus-ui")];
    let found = lookup(
        Some("/usr/bin/opentartarus-ui"),
        &env,
        &["/repo/target/debug/opentartarus-daemon"],
    );
    assert_eq!(found, "/repo/target/debug/opentartarus-daemon");
}

#[test]
fn missing_everywhere_falls_back_to_bare_name() {
    let found = lookup(None, &[], &[]);
    assert_eq!(found, DAEMON);
}

#[test]
fn candidates_come_in_search_order() {
    let c = opentartarus::binpath::bin_candidates_for(
        "x",
        Some("/a/b/y"),
        Some("/v/x"),
        Some("/t"),
        Some("/w/c/m"),
    );
    assert_eq!(
        c,
        vec!["/a/b/x", "/v/x", "/t/debug/x", "/t/release/x", "/w/target/debug/x", "/w/target/release/x"]
    );
}

#[test]
fn tray_names_fall_back_to_the_id() {
    assert_eq!(
        tray_name_from_profile_id("league-of-legends", Some("League of Legends")),
        "League of Legends"
    );
    assert_eq!(tray_name_from_profile_id("mystery", None), "mystery");
}

#[test]
fn the_submenu_follows_the_pack_order() {
    let mut names: Vec<Option<String>> = vec![None; 2];
    names[1] = Some(String::from("League of Legends"));
    let labels = tray_profile_submenu_labels(&names);
    assert_eq!(labels.len(), SHIPPED_IDS.len());
    assert_eq!(labels[0], "default");
    assert_eq!(labels[1], "League of Legends");
    assert_eq!(labels[15], "minecraft");
    let mut unique = labels.clone();
    unique.sort();
    unique.dedup();
    assert_eq!(unique.len(), labels.len());
}

#[test]
fn the_submenu_names_are_unique() {
    let mut labels = tray_profile_submenu_labels(&Vec::new());
    let total = labels.len();
    labels.sort();
    labels.dedup();
    assert_eq!(labels.len(), total, "two profiles must not share a name");
}

fn facts(id: Option<&str>, cancelled: bool) -> Option<ReplyFacts> {
    Some(ReplyFacts {
        id: id.map(str::to_string),
        cancelled,
    })
}

#[test]
fn a_quit_announces_the_stop_even_when_refused() {
    assert_eq!(
        announcements_after(Some(Method::QuitDaemon), None, None),
        vec![Announcement::DaemonStopping]
    );
    assert!(quits_after(Some(Method::QuitDaemon)));
    assert!(!quits_after(Some(Method::ApplyProfile)));
    assert!(!quits_after(None));
}

#[test]
fn profile_edits_name_the_profile_they_changed() {
    for m in [
        Method::ApplyProfile,
        Method::SetBinding,
        Method::ClearBinding,
        Method::SetLighting,
        Method::RevertProfile,
    ] {
        assert_eq!(
            announcements_after(Some(m), facts(Some("dota-2"), false), Some("default".into())),
            vec![Announcement::ProfileApplied("dota-2".into())]
        );
        assert!(announcements_after(Some(m), None, Some("default".into())).is_empty());
    }
    assert!(announcements_after(Some(Method::GetStatus), facts(Some("x"), false), None).is_empty());
    assert!(announcements_after(None, facts(Some("x"), false), None).is_empty());
}

#[test]
fn a_recording_announces_its_result_then_the_active_profile() {
    assert_eq!(
        announcements_after(Some(Method::SubmitRecord), facts(None, false), Some("minecraft".into())),
        vec![Announcement::Recorded, Announcement::ProfileApplied("minecraft".into())]
    );
    assert_eq!(
        announcements_after(Some(Method::StopRecord), facts(None, true), None),
        vec![Announcement::RecordCancelled]
    );
    assert!(announcements_after(Some(Method::StopRecord), facts(None, false), None).is_empty());
}

#[test]
fn the_submenu_lists_every_shipped_profile_in_pack_order() {
    let names: Vec<Option<String>> = SHIPPED_IDS
        .iter()
        .enumerate()
        .map(|(index, id)| {
            if index == 0 {
                Some(String::from("Default"))
            } else {
                Some(format!("Pack name of {id}"))
            }
        })
        .collect();
    let labels = tray_profile_submenu_labels(&names);
    assert_eq!(labels.len(), SHIPPED_IDS.len());
    assert_eq!(labels[0], "Default");
    for (index, expected) in names.iter().enumerate() {
        assert_eq!(Some(&labels[index]), expected.as_ref(), "row {index} out of order");
    }
}

#[test]
fn device_facts_follow_what_the_loop_sees() {
    let none = DeviceFacts {
        present: false,
        model: None,
        evdev_ok: false,
        grab_conflict: Some("input-remapper".into()),
    };
    let found = device_step(none, DeviceChange::Appeared { model: DeviceModel::Pro, readable: true });
    assert!(found.present && found.evdev_ok && found.grab_conflict.is_none());
    assert_eq!(found.model, Some(DeviceModel::Pro));
    let busy = device_step(found.clone(), DeviceChange::GrabFailed { model: DeviceModel::V2, code: ErrorCode::GrabConflict });
    assert!(busy.present && busy.evdev_ok);
    let denied = device_step(found.clone(), DeviceChange::GrabFailed { model: DeviceModel::V2, code: ErrorCode::Permission });
    assert!(denied.present && !denied.evdev_ok);
    let gone = device_step(found, DeviceChange::Vanished);
    assert!(!gone.present && gone.model.is_none() && gone.evdev_ok);
}
