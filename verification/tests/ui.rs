use opentartarus::labels::bind_label;
use opentartarus::types::{Action, KeyId, KeyToken, LightingEffect, Modifier, MouseButton, MouseTarget};
use opentartarus::ui::{
    automates_input, bind_readout, capture_window_key, close_action, could_not_start_message,
    effect_name, grab_conflict_name, hold_repeat_state, key_number, map_key_token, map_modifiers,
    menu_entries_for, uses_color, CloseAction, EffectChoice, KeyCapture, MenuEntry, ModifierState,
    NamedKey, ProfileRow, Tab, WindowGlyph, WindowKey, HELD_ALT, HELD_CTRL, HELD_SHIFT,
    MOUSE_BACK, MOUSE_FORWARD, MOUSE_LEFT, MOUSE_MIDDLE, MOUSE_RIGHT, MOUSE_WHEEL_DOWN,
    MOUSE_WHEEL_UP, UNBOUND_PLACEHOLDER,
};
use opentartarus::error::ErrorCode;

fn key(token: KeyToken) -> Action {
    Action::Key {
        key: token,
        modifiers: vec![],
    }
}

#[test]
fn an_unbound_key_reads_as_a_dash_not_an_empty_box() {
    assert_eq!(bind_readout(None, &[]), UNBOUND_PLACEHOLDER);
}

#[test]
fn a_bound_key_reads_as_its_label() {
    assert_eq!(bind_readout(Some(&key(KeyToken::Q)), &[]), "Q");
    let mouse = Action::Mouse {
        target: MouseTarget::Button {
            button: MouseButton::Left,
        },
    };
    assert_eq!(bind_readout(Some(&mouse), &[]), MOUSE_LEFT);
    assert_eq!(bind_label(Some(&mouse)), "M1");
}

#[test]
fn hold_repeat_is_offered_only_for_plain_key_bindings() {
    let plain = hold_repeat_state(Some(&key(KeyToken::Q)));
    assert!(plain.enabled, "a plain key can repeat");
    assert!(!plain.on);
    let held = Action::HoldRepeat {
        inner: Box::new(key(KeyToken::Q)),
        rate_ms: 40,
    };
    let held = hold_repeat_state(Some(&held));
    assert!(held.enabled);
    assert!(held.on, "an existing hold-repeat reads as on");
}

#[test]
fn hold_repeat_is_refused_for_macros_mouse_and_nothing() {
    let macro_action = Action::Macro { steps: Vec::new() };
    assert!(!hold_repeat_state(Some(&macro_action)).enabled);
    let mouse = Action::Mouse {
        target: MouseTarget::Button {
            button: MouseButton::Right,
        },
    };
    assert!(!hold_repeat_state(Some(&mouse)).enabled);
    let nothing = hold_repeat_state(None);
    assert!(!nothing.enabled);
    assert!(!nothing.on);
}

#[test]
fn hold_repeat_wrapping_a_macro_is_not_editable() {
    let odd = Action::HoldRepeat {
        inner: Box::new(Action::Macro { steps: Vec::new() }),
        rate_ms: 40,
    };
    let state = hold_repeat_state(Some(&odd));
    assert!(state.on, "it is on, because it is wrapped");
    assert!(!state.enabled, "but the toggle must not offer to change it");
}

#[test]
fn the_held_key_chips_are_the_three_bare_modifiers_with_distinct_labels() {
    let held = [(HELD_SHIFT, KeyToken::LeftShift), (HELD_CTRL, KeyToken::LeftCtrl), (HELD_ALT, KeyToken::LeftAlt)];
    let keys: Vec<KeyToken> = held.iter().map(|(_, key)| *key).collect();
    assert_eq!(keys, vec![KeyToken::LeftShift, KeyToken::LeftCtrl, KeyToken::LeftAlt]);
    let mut labels: Vec<&str> = held.iter().map(|(label, _)| *label).collect();
    labels.sort_unstable();
    labels.dedup();
    assert_eq!(labels.len(), held.len());
}

#[test]
fn only_macros_and_hold_repeat_count_as_automation() {
    assert!(automates_input(Some(&Action::Macro { steps: Vec::new() })));
    assert!(automates_input(Some(&Action::HoldRepeat {
        inner: Box::new(key(KeyToken::Q)),
        rate_ms: 40,
    })));
    assert!(!automates_input(Some(&key(KeyToken::Q))));
    assert!(!automates_input(Some(&Action::NextProfile)));
    assert!(!automates_input(None));
}

#[test]
fn every_mouse_target_gets_exactly_one_chip() {
    let mut labels = vec![
        MOUSE_LEFT,
        MOUSE_RIGHT,
        MOUSE_MIDDLE,
        MOUSE_BACK,
        MOUSE_FORWARD,
        MOUSE_WHEEL_UP,
        MOUSE_WHEEL_DOWN,
    ];
    assert_eq!(labels.len(), 7);
    labels.sort_unstable();
    labels.dedup();
    assert_eq!(labels.len(), 7, "labels must be unique");
}

#[test]
fn a_switch_reads_as_the_profile_name_and_falls_back_to_the_id() {
    let rows = vec![ProfileRow {
        id: "dota-2".into(),
        name: "Dota 2".into(),
        is_active: false,
        can_revert: true,
        can_delete: false,
        color: None,
    }];
    let jump = Action::SwitchProfile {
        profile: "dota-2".into(),
    };
    assert_eq!(bind_readout(Some(&jump), &rows), "Switch to Dota 2");
    let gone = Action::SwitchProfile {
        profile: "deleted".into(),
    };
    assert_eq!(bind_readout(Some(&gone), &rows), "Switch to deleted");
    assert_eq!(bind_readout(Some(&Action::NextProfile), &rows), "Next profile");
    assert!(!hold_repeat_state(Some(&jump)).enabled, "a switch cannot repeat");
}

#[test]
fn type_a_combo_only_when_field_focused() {
    assert_eq!(
        capture_window_key(false, true, Some(KeyToken::Q), vec![]),
        KeyCapture::SetBinding {
            key: KeyToken::Q,
            modifiers: vec![],
        }
    );
    assert_eq!(
        capture_window_key(false, false, Some(KeyToken::Q), vec![]),
        KeyCapture::Ignore
    );
}

#[test]
fn modifier_only_key_is_ignored() {
    assert_eq!(
        capture_window_key(true, false, None, vec![Modifier::Ctrl]),
        KeyCapture::Ignore
    );
}

#[test]
fn recording_takes_the_key_with_its_modifiers() {
    assert_eq!(
        capture_window_key(true, true, Some(KeyToken::A), vec![Modifier::Shift]),
        KeyCapture::SubmitRecord {
            key: KeyToken::A,
            modifiers: vec![Modifier::Shift],
        }
    );
}

#[test]
fn typed_keys_map_to_tokens_in_either_case() {
    assert_eq!(map_key_token(&WindowKey::Character("Q".into())), Some(KeyToken::Q));
    assert_eq!(map_key_token(&WindowKey::Character("q".into())), Some(KeyToken::Q));
    assert_eq!(map_key_token(&WindowKey::Character("7".into())), Some(KeyToken::Num7));
    assert_eq!(map_key_token(&WindowKey::Character("\\".into())), Some(KeyToken::Backslash));
    assert_eq!(map_key_token(&WindowKey::Character("ab".into())), None);
    assert_eq!(map_key_token(&WindowKey::Named(NamedKey::ArrowLeft)), Some(KeyToken::Left));
    assert_eq!(map_key_token(&WindowKey::Named(NamedKey::F12)), Some(KeyToken::F12));
    assert_eq!(map_key_token(&WindowKey::Named(NamedKey::Shift)), None);
    assert_eq!(map_key_token(&WindowKey::Unidentified), None);
    assert_eq!(
        map_modifiers(ModifierState { control: true, shift: false, alt: true, logo: true }),
        vec![Modifier::Ctrl, Modifier::Alt, Modifier::Super]
    );
}

#[test]
fn window_helpers() {
    assert_eq!(close_action(true), CloseAction::ExitUi);
    assert_eq!(close_action(false), CloseAction::HideToTray);
    assert!(uses_color(LightingEffect::Reactive));
    assert!(!uses_color(LightingEffect::Wave));
    assert_eq!(effect_name(LightingEffect::Off), "none");
    assert_eq!(EffectChoice(LightingEffect::Spectrum).label(), "spectrum");
    assert_eq!(Tab::default(), Tab::Keys);
    assert_eq!(
        could_not_start_message("The tray didn’t start."),
        "OpenTartarus couldn’t start. The tray didn’t start."
    );
    assert_eq!(menu_entries_for(true), vec![MenuEntry::FixPermissions, MenuEntry::Quit]);
    assert_eq!(menu_entries_for(false), vec![MenuEntry::Quit]);
    assert_eq!(MenuEntry::Quit.label(), "Quit");
    assert_eq!(MenuEntry::FixPermissions.label(), "Fix permissions");
    assert_eq!(key_number(KeyId::Kp07).as_deref(), Some("07"));
    assert_eq!(key_number(KeyId::Kp20).as_deref(), Some("20"));
    assert_eq!(key_number(KeyId::Mode), None);
}

#[test]
fn the_three_glyphs_are_distinct() {
    let all = [WindowGlyph::ChevronDown, WindowGlyph::ChevronUp, WindowGlyph::Cross];
    let mut seen = all.to_vec();
    seen.dedup();
    assert_eq!(seen.len(), all.len());
    assert_ne!(WindowGlyph::ChevronDown, WindowGlyph::ChevronUp);
}

#[test]
fn grab_conflict_names_are_process_names_only() {
    assert_eq!(grab_conflict_name(" input-remapper "), Some("input-remapper".to_string()));
    assert_eq!(grab_conflict_name(ErrorCode::GrabConflict.user_message()), None);
    assert_eq!(grab_conflict_name("/dev/input/event3"), None);
    assert_eq!(grab_conflict_name("   "), None);
}
