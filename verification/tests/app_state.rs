use opentartarus::app::{
    lighting_is_editable, menu_entries, profile_swatch_color, row_is_deletable, row_is_selected, App, DeviceReport,
    Effect, EventParams, FixPermissionsOutcome, Focus, Message, Reply, Request, StatusReport,
    DEVICE_CONNECTED_PRO, DEVICE_CONNECTED_V2, DEVICE_NOT_CONNECTED, FALLBACK_SWATCH,
    STATUS_APPLIED_SUFFIX, STATUS_LIGHTING_SAVED, STATUS_READY,
};
use opentartarus::error::ErrorCode;
use opentartarus::ipc::{EventMethod, Method, WireError};
use opentartarus::types::{Action, DeviceModel, KeyId, KeyToken, LightingEffect, Modifier};
use opentartarus::ui::{
    capture_window_key, close_action, CloseAction, KeyCapture, MenuEntry, ModifierState, NamedKey,
    Phase, ProfileRow, Tab, WindowKey, Banner, BUTTON_FIX_PERMISSIONS, BUTTON_QUIT,
};

fn running_app() -> App {
    let mut app = App::default();
    app.phase = Phase::Running;
    app.device_present = true;
    app.ever_present = true;
    app
}

fn sent(effects: &[Effect]) -> Vec<&Request> {
    effects
        .iter()
        .filter_map(|e| match e {
            Effect::Send(r) => Some(r),
            _ => None,
        })
        .collect()
}

fn no_params() -> EventParams {
    EventParams {
        device: DeviceReport {
            present: false,
            model: None,
        },
        key_id: None,
        action: None,
        code: None,
        message: None,
        id: None,
    }
}

fn reply() -> Reply {
    Reply {
        status: None,
        profiles: None,
        id: None,
        active_id: None,
        key_id: None,
        action: None,
    }
}

fn status(present: bool, evdev: bool, grab_conflict: Option<&str>) -> StatusReport {
    StatusReport {
        device: DeviceReport {
            present,
            model: if present { Some(DeviceModel::V2) } else { None },
        },
        openrazer_available: present,
        active_profile_id: None,
        record_active: false,
        uinput_ok: true,
        evdev_ok: evdev,
        grab_conflict: grab_conflict.map(|s| s.to_string()),
    }
}

fn status_reply(s: StatusReport) -> Message {
    let mut r = reply();
    r.status = Some(s);
    Message::IpcResponse {
        method: Some(Method::GetStatus),
        ok: true,
        result: Some(r),
        error: None,
    }
}

fn error_event(code: ErrorCode, message: &str) -> Message {
    let mut p = no_params();
    p.code = Some(code);
    p.message = Some(message.to_string());
    Message::IpcEvent {
        method: EventMethod::Error,
        params: p,
    }
}

fn row(id: &str, name: &str, is_active: bool, can_revert: bool, can_delete: bool) -> ProfileRow {
    ProfileRow {
        id: id.into(),
        name: name.into(),
        is_active,
        can_revert,
        can_delete,
        color: None,
    }
}

fn app_with_profiles() -> App {
    let mut app = running_app();
    app.profiles = vec![
        row("default", "Default", false, false, false),
        row("league-of-legends", "League of Legends", true, true, false),
    ];
    app.active_profile_id = Some("league-of-legends".into());
    app
}

fn no_mods() -> ModifierState {
    ModifierState {
        control: false,
        shift: false,
        alt: false,
        logo: false,
    }
}

fn escape() -> WindowKey {
    WindowKey::Named(NamedKey::Escape)
}

#[test]
fn grab_conflict_error_does_not_treat_spec_sentence_as_name() {
    let mut app = running_app();
    let sentence = ErrorCode::GrabConflict.user_message();
    let _ = app.update(error_event(ErrorCode::GrabConflict, sentence));
    assert_eq!(app.banner(), Some(Banner::GrabConflict { name: None }));
}

#[test]
fn grab_conflict_appends_only_a_process_name() {
    let mut app = running_app();
    let _ = app.update(error_event(ErrorCode::GrabConflict, "openrazer-daemon"));
    assert_eq!(
        app.banner(),
        Some(Banner::GrabConflict {
            name: Some("openrazer-daemon".into()),
        })
    );
}

#[test]
fn grab_conflict_status_path_is_not_a_name() {
    let mut app = running_app();
    let _ = app.update(status_reply(status(true, true, Some("/dev/input/event270"))));
    assert_eq!(app.banner(), Some(Banner::GrabConflict { name: None }));
}

#[test]
fn submit_record_error_shows_wire_message() {
    let mut app = running_app();
    let _ = app.update(Message::IpcResponse {
        method: Some(Method::SubmitRecord),
        ok: false,
        result: None,
        error: Some(WireError {
            code: ErrorCode::NotFound,
            message: "Not recording.".into(),
        }),
    });
    assert_eq!(app.last_error.as_deref(), Some("Not recording."));
    assert_eq!(app.banner(), Some(Banner::Other("Not recording.".into())));
}

#[test]
fn present_but_unreadable_is_permission_not_no_device() {
    let mut app = running_app();
    app.device_present = false;
    app.ever_present = false;
    let _ = app.update(status_reply(status(true, false, None)));
    assert_eq!(app.banner(), Some(Banner::Permission));
}

#[test]
fn missing_device_uses_no_device_copy() {
    let mut app = running_app();
    app.device_present = false;
    app.ever_present = false;
    let _ = app.update(status_reply(status(false, true, None)));
    assert_eq!(app.banner(), Some(Banner::NoDevice));
}

#[test]
fn quit_sends_quit_daemon() {
    let mut app = running_app();
    let effects = app.update(Message::Quit);
    let requests = sent(&effects);
    assert_eq!(requests[0].method(), Method::QuitDaemon);
}

#[test]
fn close_hides_and_does_not_quit_daemon() {
    let mut app = running_app();
    let effects = app.update(Message::CloseRequested { wayland: false });
    assert!(app.hidden);
    assert_eq!(app.banner(), None);
    assert!(sent(&effects).is_empty());
    assert!(matches!(effects.as_slice(), [Effect::HideWindow]));
    assert_eq!(close_action(false), CloseAction::HideToTray);
    assert_eq!(close_action(true), CloseAction::ExitUi);
}

#[test]
fn failed_start_shows_specific_reason_not_lighting_copy() {
    let mut app = App::default();
    let reason = String::from(
        "OpenTartarus couldn\u{2019}t start. No daemon answered at /run/user/1000/opentartarus/daemon.sock.",
    );
    let _ = app.update(Message::DaemonFailed(reason.clone()));
    assert_eq!(app.phase, Phase::FailedStart);
    assert_eq!(app.banner(), Some(Banner::CouldNotStart(reason)));
    assert!(app.lighting_footer_message().is_none());
    assert!(!app.openrazer);
}

#[test]
fn running_without_lighting_backend_uses_lighting_copy() {
    let mut app = running_app();
    app.openrazer = false;
    assert_eq!(
        app.lighting_footer_message(),
        Some(ErrorCode::Lighting.user_message())
    );
}

#[test]
fn tab_starts_on_keys_and_switching_closes_the_menu() {
    let mut app = running_app();
    assert_eq!(app.tab, Tab::Keys);
    app.menu_open = true;
    let _ = app.update(Message::SelectTab(Tab::Lighting));
    assert_eq!(app.tab, Tab::Lighting);
    assert!(!app.menu_open, "switching tabs must dismiss the menu");
    let _ = app.update(Message::SelectTab(Tab::Keys));
    assert_eq!(app.tab, Tab::Keys);
}

#[test]
fn toggle_menu_flips_and_actions_dismiss_it() {
    let mut app = running_app();
    assert!(!app.menu_open);
    let _ = app.update(Message::ToggleMenu);
    assert!(app.menu_open);
    let _ = app.update(Message::ToggleMenu);
    assert!(!app.menu_open);

    app.menu_open = true;
    let effects = app.update(Message::FixPermissions);
    assert!(!app.menu_open, "Fix permissions must dismiss the menu");
    assert!(matches!(effects.as_slice(), [Effect::RunFixPermissions]));
}

#[test]
fn quit_still_quits_the_daemon_from_the_menu() {
    let mut app = running_app();
    app.menu_open = true;
    let effects = app.update(Message::Quit);
    assert!(!app.menu_open);
    assert_eq!(sent(&effects)[0].method(), Method::QuitDaemon);
    assert!(matches!(effects.last(), Some(Effect::Exit)));
}

#[test]
fn hover_sets_and_clears_the_highlighted_key() {
    let mut app = running_app();
    assert_eq!(app.hovered_key, None);
    let _ = app.update(Message::HoverKey(Some(KeyId::Kp07)));
    assert_eq!(app.hovered_key, Some(KeyId::Kp07));
    let _ = app.update(Message::HoverKey(None));
    assert_eq!(app.hovered_key, None);
}

#[test]
fn lighting_preset_sets_all_three_channels_in_one_write() {
    let mut app = app_with_profiles();
    app.lighting.effect = LightingEffect::Static;
    let effects = app.update(Message::LightingPreset([0x00, 0xb4, 0xff]));
    assert_eq!(app.lighting.color, Some([0x00, 0xb4, 0xff]));
    assert!(app.lighting_saved);
    let requests = sent(&effects);
    assert_eq!(requests.len(), 1, "a preset must send exactly one write");
    assert_eq!(requests[0].method(), Method::SetLighting);
}

#[test]
fn every_lighting_change_marks_the_status_line() {
    let mut app = app_with_profiles();
    assert!(!app.lighting_saved);
    let _ = app.update(Message::LightingBrightness(50));
    assert!(app.lighting_saved);
    assert_eq!(app.status_line(), STATUS_LIGHTING_SAVED);
}

#[test]
fn picking_a_profile_replaces_the_lighting_status() {
    let mut app = app_with_profiles();
    app.lighting_saved = true;
    let _ = app.update(Message::SelectProfile("default".into()));
    assert!(!app.lighting_saved);
}

#[test]
fn status_line_falls_back_from_profile_to_ready() {
    let mut app = app_with_profiles();
    assert_eq!(
        app.status_line(),
        format!("League of Legends{}", STATUS_APPLIED_SUFFIX)
    );

    app.active_profile_id = None;
    assert_eq!(app.status_line(), STATUS_READY);

    app.lighting_saved = true;
    assert_eq!(app.status_line(), STATUS_LIGHTING_SAVED);
}

#[test]
fn device_pill_names_the_connected_model() {
    let mut app = running_app();
    app.model = Some(DeviceModel::V2);
    assert_eq!(app.device_pill_text(), DEVICE_CONNECTED_V2);
    app.model = Some(DeviceModel::Pro);
    assert_eq!(app.device_pill_text(), DEVICE_CONNECTED_PRO);
    app.device_present = false;
    assert_eq!(app.device_pill_text(), DEVICE_NOT_CONNECTED);
    app.device_present = true;
    app.model = None;
    assert_eq!(app.device_pill_text(), DEVICE_NOT_CONNECTED);
}

#[test]
fn active_profile_name_reads_the_row_not_the_id() {
    let app = app_with_profiles();
    assert_eq!(app.active_profile_name(), Some("League of Legends"));
    let empty = running_app();
    assert_eq!(empty.active_profile_name(), None);
}

#[test]
fn starting_a_new_profile_opens_an_empty_name_box_and_closes_the_menu() {
    let mut app = running_app();
    app.menu_open = true;
    assert_eq!(app.new_profile_name, None);
    let effects = app.update(Message::StartNewProfile);
    assert_eq!(app.new_profile_name.as_deref(), Some(""));
    assert!(!app.menu_open);
    assert!(matches!(effects.as_slice(), [Effect::FocusNewProfileName]));
}

#[test]
fn typing_only_lands_while_the_box_is_open() {
    let mut app = running_app();
    let _ = app.update(Message::NewProfileNameChanged("stray".into()));
    assert_eq!(app.new_profile_name, None, "no box, nothing to type into");
    let _ = app.update(Message::StartNewProfile);
    let _ = app.update(Message::NewProfileNameChanged("My Raid".into()));
    assert_eq!(app.new_profile_name.as_deref(), Some("My Raid"));
}

#[test]
fn submitting_sends_create_with_the_selected_profile_as_the_source() {
    let mut app = app_with_profiles();
    let _ = app.update(Message::StartNewProfile);
    let _ = app.update(Message::NewProfileNameChanged("  My Raid  ".into()));
    let effects = app.update(Message::SubmitNewProfile);
    let requests = sent(&effects);
    assert_eq!(requests[0].method(), Method::CreateProfile);
    match requests[0] {
        Request::CreateProfile { name, copy_from } => {
            assert_eq!(name, "My Raid", "name is trimmed");
            assert_eq!(
                copy_from.as_deref(),
                Some("league-of-legends"),
                "copies whatever is active"
            );
        }
        _ => panic!("expected a create request"),
    }
    assert_eq!(app.new_profile_name, None, "the box closes on submit");
}

#[test]
fn a_blank_name_does_not_send_and_leaves_the_box_open() {
    let mut app = app_with_profiles();
    let _ = app.update(Message::StartNewProfile);
    let _ = app.update(Message::NewProfileNameChanged("   ".into()));
    let effects = app.update(Message::SubmitNewProfile);
    assert!(effects.is_empty(), "nothing to create from a blank name");
    assert!(app.new_profile_name.is_some(), "box stays open to be filled in");
}

#[test]
fn cancel_and_escape_both_close_the_box_without_sending() {
    let mut app = running_app();
    let mut all = Vec::new();
    all.extend(app.update(Message::StartNewProfile));
    all.extend(app.update(Message::CancelNewProfile));
    assert_eq!(app.new_profile_name, None);

    all.extend(app.update(Message::StartNewProfile));
    all.extend(app.update(Message::ComboKeyResolved {
        key: escape(),
        modifiers: no_mods(),
        focused: Focus::NewProfileName,
    }));
    assert_eq!(app.new_profile_name, None);
    assert!(sent(&all).is_empty());
}

#[test]
fn typing_in_the_name_box_never_becomes_a_key_binding() {
    let mut app = app_with_profiles();
    app.selected_key = Some(KeyId::Kp01);
    let _ = app.update(Message::StartNewProfile);
    let effects = app.update(Message::ComboKeyResolved {
        key: WindowKey::Character("q".into()),
        modifiers: no_mods(),
        focused: Focus::NewProfileName,
    });
    assert!(sent(&effects).is_empty(), "a typed letter must not send SetBinding");
    assert!(!app.bindings.contains_key(KeyId::Kp01));
}

#[test]
fn delete_sends_the_id_and_the_reply_moves_selection_to_the_survivor() {
    let mut app = app_with_profiles();
    app.selected_key = Some(KeyId::Kp05);
    let effects = app.update(Message::DeleteProfile("my-raid-layout".into()));
    let requests = sent(&effects);
    assert_eq!(requests[0].method(), Method::DeleteProfile);
    match requests[0] {
        Request::DeleteProfile { id } => assert_eq!(id, "my-raid-layout"),
        _ => panic!("expected a delete request"),
    }

    let mut r = reply();
    r.id = Some("my-raid-layout".into());
    r.active_id = Some("default".into());
    let _ = app.update(Message::IpcResponse {
        method: Some(Method::DeleteProfile),
        ok: true,
        result: Some(r),
        error: None,
    });
    assert_eq!(app.active_profile_id.as_deref(), Some("default"));
    assert_eq!(app.selected_profile_id.as_deref(), Some("default"));
    assert_eq!(app.selected_key, None, "the deleted profile's key is gone");
}

#[test]
fn a_create_reply_selects_the_new_profile() {
    let mut app = app_with_profiles();
    let mut r = reply();
    r.id = Some("my-raid-layout".into());
    let effects = app.update(Message::IpcResponse {
        method: Some(Method::CreateProfile),
        ok: true,
        result: Some(r),
        error: None,
    });
    assert_eq!(app.active_profile_id.as_deref(), Some("my-raid-layout"));
    assert_eq!(app.selected_profile_id.as_deref(), Some("my-raid-layout"));
    assert!(matches!(effects.first(), Some(Effect::LoadProfile(id)) if id == "my-raid-layout"));
}

#[test]
fn rows_carry_the_delete_flag_and_default_it_off() {
    let mut app = running_app();
    let mut r = reply();
    r.profiles = Some(vec![
        row("default", "Default", true, true, false),
        row("mine", "Mine", false, false, true),
        row("old-daemon", "Old", false, false, false),
    ]);
    let _ = app.update(Message::IpcResponse {
        method: Some(Method::ListProfiles),
        ok: true,
        result: Some(r),
        error: None,
    });
    let by_id = |id: &str| app.profiles.iter().find(|r| r.id == id).unwrap();
    assert!(!by_id("default").can_delete);
    assert!(by_id("mine").can_delete);
    assert!(!by_id("old-daemon").can_delete, "a missing flag reads as not deletable");
}

#[test]
fn a_healthy_session_offers_only_quit() {
    let app = running_app();
    assert_eq!(app.banner(), None);
    assert_eq!(menu_entries(&app), vec![MenuEntry::Quit]);
}

#[test]
fn a_permission_problem_adds_the_repair_entry_above_quit() {
    let mut app = running_app();
    app.evdev_ok = false;
    assert_eq!(app.banner(), Some(Banner::Permission));
    assert_eq!(
        menu_entries(&app),
        vec![MenuEntry::FixPermissions, MenuEntry::Quit]
    );
}

#[test]
fn other_banners_do_not_offer_the_repair_entry() {
    let mut app = running_app();
    app.device_present = false;
    app.ever_present = false;
    assert_eq!(app.banner(), Some(Banner::NoDevice));
    assert_eq!(menu_entries(&app), vec![MenuEntry::Quit]);
}

#[test]
fn quit_is_always_the_last_entry() {
    let mut app = running_app();
    assert_eq!(menu_entries(&app).last(), Some(&MenuEntry::Quit));
    app.evdev_ok = false;
    assert_eq!(menu_entries(&app).last(), Some(&MenuEntry::Quit));
}

#[test]
fn each_entry_carries_its_own_label_and_message() {
    assert_eq!(MenuEntry::Quit.label(), BUTTON_QUIT);
    assert_eq!(MenuEntry::FixPermissions.label(), BUTTON_FIX_PERMISSIONS);
    let mut app = running_app();
    assert!(matches!(app.update(Message::Quit).last(), Some(Effect::Exit)));
    let mut app = running_app();
    assert!(matches!(
        app.update(Message::FixPermissions).as_slice(),
        [Effect::RunFixPermissions]
    ));
}

#[test]
fn only_custom_rows_offer_delete_and_only_shipped_rows_offer_revert() {
    let shipped = row("league-of-legends", "league-of-legends", true, true, false);
    assert!(!row_is_deletable(&shipped), "a shipped profile is never deletable");

    let custom = row("my-raid-layout", "my-raid-layout", false, false, true);
    assert!(row_is_deletable(&custom));
    assert!(!custom.can_revert, "nothing shipped to revert a custom profile to");
}

#[test]
fn a_profile_without_a_colour_falls_back_to_the_faint_swatch() {
    assert_eq!(
        profile_swatch_color(&row("default", "default", false, false, false)),
        FALLBACK_SWATCH
    );
    let mut coloured = row("x", "x", false, false, false);
    coloured.color = Some([1, 2, 3]);
    assert_eq!(profile_swatch_color(&coloured), [1, 2, 3]);
}

#[test]
fn the_active_row_and_the_clicked_row_both_read_as_selected() {
    let mut app = App::default();
    app.phase = Phase::Running;

    let active = row("league-of-legends", "league-of-legends", true, false, false);
    assert!(row_is_selected(&app, &active), "the applied profile is selected");

    let other = row("dota-2", "dota-2", false, false, false);
    assert!(!row_is_selected(&app, &other));

    app.selected_profile_id = Some("dota-2".into());
    assert!(row_is_selected(&app, &other), "the clicked profile is selected");
}

#[test]
fn recording_sends_submit_record_not_set_binding() {
    let capture = capture_window_key(true, false, Some(KeyToken::C), vec![Modifier::Ctrl]);
    assert_eq!(
        capture,
        KeyCapture::SubmitRecord {
            key: KeyToken::C,
            modifiers: vec![Modifier::Ctrl],
        }
    );
    assert_eq!(
        capture_window_key(true, true, Some(KeyToken::C), vec![Modifier::Ctrl]),
        KeyCapture::SubmitRecord {
            key: KeyToken::C,
            modifiers: vec![Modifier::Ctrl],
        }
    );
    let mut app = app_with_profiles();
    app.selected_key = Some(KeyId::Kp02);
    app.recording = true;
    let effects = app.update(Message::ComboKey {
        key: WindowKey::Character("c".into()),
        modifiers: ModifierState {
            control: true,
            shift: false,
            alt: false,
            logo: false,
        },
    });
    match sent(&effects).as_slice() {
        [Request::SubmitRecordKey { key, modifiers }] => {
            assert_eq!(*key, KeyToken::C);
            assert_eq!(modifiers, &vec![Modifier::Ctrl]);
        }
        _ => panic!("expected one submit"),
    }
    assert!(!app.recording);
    assert!(!app.bindings.contains_key(KeyId::Kp02));
}

// The rest of the window's messages.

#[test]
fn a_typed_combo_binds_the_selected_key() {
    let mut app = app_with_profiles();
    app.selected_key = Some(KeyId::Kp03);
    let effects = app.update(Message::ComboKeyResolved {
        key: WindowKey::Character("Q".into()),
        modifiers: no_mods(),
        focused: Focus::Combo,
    });
    assert!(app.combo_focused);
    assert_eq!(
        app.selected_action(),
        Some(Action::Key {
            key: KeyToken::Q,
            modifiers: vec![]
        })
    );
    match sent(&effects).as_slice() {
        [Request::SetBinding { profile_id, key_id, .. }] => {
            assert_eq!(profile_id, "league-of-legends");
            assert_eq!(*key_id, KeyId::Kp03);
        }
        _ => panic!("expected one binding"),
    }
}

#[test]
fn hold_repeat_wraps_and_unwraps_a_key() {
    let mut app = app_with_profiles();
    app.selected_key = Some(KeyId::Kp01);
    let _ = app.update(Message::ComboKeyResolved {
        key: WindowKey::Character("w".into()),
        modifiers: no_mods(),
        focused: Focus::Combo,
    });
    let _ = app.update(Message::HoldRepeat(true));
    assert!(matches!(
        app.selected_action(),
        Some(Action::HoldRepeat { rate_ms: 40, .. })
    ));
    let _ = app.update(Message::HoldRepeat(false));
    assert_eq!(
        app.selected_action(),
        Some(Action::Key {
            key: KeyToken::W,
            modifiers: vec![]
        })
    );
}

#[test]
fn macro_steps_are_added_timed_and_removed() {
    let mut app = app_with_profiles();
    app.selected_key = Some(KeyId::Kp04);
    let _ = app.update(Message::AddMacroStep);
    let _ = app.update(Message::AddMacroStep);
    let _ = app.update(Message::MacroDelay(1, "250".into()));
    let _ = app.update(Message::MacroDelay(0, "99999".into()));
    let _ = app.update(Message::MacroDelay(0, "soon".into()));
    match app.selected_action() {
        Some(Action::Macro { steps }) => {
            assert_eq!(steps.len(), 2);
            assert_eq!(steps[0].delay_ms, 10_000);
            assert_eq!(steps[1].delay_ms, 250);
        }
        other => panic!("expected a macro, got {:?}", other),
    }
    let _ = app.update(Message::DeleteMacroStep(0));
    let effects = app.update(Message::DeleteMacroStep(0));
    assert_eq!(app.selected_action(), None, "an empty macro unbinds the key");
    assert_eq!(sent(&effects)[0].method(), Method::ClearBinding);
}

#[test]
fn a_colour_effect_gets_a_default_colour() {
    let mut app = app_with_profiles();
    app.lighting.color = None;
    let _ = app.update(Message::LightingEffect(opentartarus::ui::EffectChoice(LightingEffect::Breath)));
    assert_eq!(app.lighting.color, Some([255, 255, 255]));
    let _ = app.update(Message::LightingColor(1, 7));
    assert_eq!(app.lighting.color, Some([255, 7, 255]));
    let _ = app.update(Message::LightingColor(3, 9));
    assert_eq!(app.lighting.color, Some([255, 7, 255]));
    let _ = app.update(Message::LightingBrightness(250));
    assert_eq!(app.lighting.brightness, 100);
}

#[test]
fn the_permission_fix_waits_for_a_replug_or_a_new_session() {
    let mut app = running_app();
    app.evdev_ok = false;
    let effects = app.update(Message::FixPermissionsDone(FixPermissionsOutcome::Success));
    assert_eq!(sent(&effects)[0].method(), Method::GetStatus);
    assert_eq!(app.banner(), Some(Banner::SignOut));
    app.evdev_ok = true;
    app.device_present = false;
    assert_eq!(app.banner(), Some(Banner::UnplugAfterFix));
    let _ = app.update(status_reply(status(true, true, None)));
    assert!(!app.after_fix_permissions);
    assert_eq!(app.banner(), None);
}

#[test]
fn a_profile_applied_elsewhere_is_loaded() {
    let mut app = running_app();
    let mut p = no_params();
    p.id = Some("wow".into());
    let effects = app.update(Message::IpcEvent {
        method: EventMethod::ProfileApplied,
        params: p,
    });
    assert_eq!(app.active_profile_id.as_deref(), Some("wow"));
    assert!(matches!(effects.first(), Some(Effect::LoadProfile(id)) if id == "wow"));
    assert_eq!(sent(&effects)[0].method(), Method::ListProfiles);
}

#[test]
fn shipped_rows_come_before_custom_ones() {
    let mut app = running_app();
    let mut r = reply();
    r.profiles = Some(vec![
        row("mine", "Mine", false, false, true),
        row("default", "Default", true, true, false),
        row("mine", "Mine again", false, false, true),
    ]);
    let _ = app.update(Message::IpcResponse {
        method: None,
        ok: true,
        result: Some(r),
        error: None,
    });
    let ids: Vec<&str> = app.profiles.iter().map(|r| r.id.as_str()).collect();
    assert_eq!(ids, vec!["default", "mine"]);
    assert_eq!(app.profiles[1].name, "Mine again");
}

#[test]
fn lighting_is_editable_only_when_a_backend_is_there() {
    let mut app = running_app();
    app.openrazer = true;
    assert!(lighting_is_editable(&app));
    app.openrazer = false;
    assert!(!lighting_is_editable(&app), "no OpenRazer, no controls");
    assert!(app.lighting_footer_message().is_some());
}

#[test]
fn lighting_is_not_editable_before_the_daemon_connects() {
    let mut app = running_app();
    app.openrazer = true;
    app.phase = Phase::Connecting;
    assert!(!lighting_is_editable(&app));
}
