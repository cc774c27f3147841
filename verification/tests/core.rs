use opentartarus::codec::{decode_frame, encode_frame};
use opentartarus::constants::{
    IPC_MAX_MESSAGE_BYTES, USB_PID_NAGA_PRO_1, USB_PID_TARTARUS_PRO, USB_PID_TARTARUS_V2,
    USB_VID_RAZER,
};
use opentartarus::error::ErrorCode;
use opentartarus::keymap::{modifier_to_evdev, token_to_evdev, EvdevTuple, KeyMap};
use opentartarus::labels::{
    bind_label, key_display_name, key_position_text, profile_row_order, GRID_KEY_COUNT,
    GRID_ROW_LENGTHS,
};
use opentartarus::lighting::{
    brightness_to_razer, openrazer_lighting_ready, peer_frontends_make_openrazer_missing,
    should_request_openrazer_bus_name, wave_sysfs_value, LightingChain, LightingClient,
    NullLighting, RecordingLighting,
};
use opentartarus::pack::{is_shipped, SHIPPED_IDS};
use opentartarus::record::{RecordOutcome, RecordReason, Recorder};
use opentartarus::types::{
    Action, Edge, KeyId, KeyToken, Lighting, LightingEffect, MacroKind, MacroStep, Modifier,
    MouseButton, MouseTarget, ScrollDir,
};

#[test]
fn roundtrip_json() {
    let body = br#"{"type":"req","id":"a","method":"GetStatus","params":{}}"#;
    let framed = encode_frame(body).unwrap();
    assert_eq!(&framed[..4], &(body.len() as u32).to_le_bytes());
    let (out, n) = decode_frame(&framed).unwrap();
    assert_eq!(out, body);
    assert_eq!(n, framed.len());
}

#[test]
fn reject_zero_length() {
    assert_eq!(encode_frame(b"").unwrap_err(), ErrorCode::InvalidProfile);
    let buf = vec![0, 0, 0, 0];
    assert_eq!(decode_frame(&buf).unwrap_err(), ErrorCode::InvalidProfile);
}

#[test]
fn reject_oversize() {
    let huge = vec![0u8; (IPC_MAX_MESSAGE_BYTES as usize) + 1];
    assert_eq!(encode_frame(&huge).unwrap_err(), ErrorCode::InvalidProfile);
    let oversize_len = IPC_MAX_MESSAGE_BYTES + 1;
    let mut buf = oversize_len.to_le_bytes().to_vec();
    buf.extend_from_slice(&huge);
    assert_eq!(decode_frame(&buf).unwrap_err(), ErrorCode::InvalidProfile);
}

#[test]
fn a_frame_with_trailing_bytes_reads_only_its_own_payload() {
    let mut framed = encode_frame(b"abc").unwrap();
    framed.extend_from_slice(b"next");
    let (out, n) = decode_frame(&framed).unwrap();
    assert_eq!(out, b"abc");
    assert_eq!(n, 7);
}

#[test]
fn a_short_header_is_not_a_frame() {
    assert!(decode_frame(&[1, 0]).is_err());
    assert!(decode_frame(&[3, 0, 0, 0, b'a']).is_err());
}

#[test]
fn locked_linux_key_codes() {
    assert_eq!(token_to_evdev(KeyToken::Q), 16);
    assert_eq!(token_to_evdev(KeyToken::C), 46);
    assert_eq!(token_to_evdev(KeyToken::E), 18);
    assert_eq!(token_to_evdev(KeyToken::Num1), 2);
    assert_eq!(token_to_evdev(KeyToken::Num2), 3);
    assert_eq!(modifier_to_evdev(Modifier::Ctrl), 29);
}

fn keypad_and_wheel_mode() -> [KeyId; 24] {
    [
        KeyId::Kp01,
        KeyId::Kp02,
        KeyId::Kp03,
        KeyId::Kp04,
        KeyId::Kp05,
        KeyId::Kp06,
        KeyId::Kp07,
        KeyId::Kp08,
        KeyId::Kp09,
        KeyId::Kp10,
        KeyId::Kp11,
        KeyId::Kp12,
        KeyId::Kp13,
        KeyId::Kp14,
        KeyId::Kp15,
        KeyId::Kp16,
        KeyId::Kp17,
        KeyId::Kp18,
        KeyId::Kp19,
        KeyId::Kp20,
        KeyId::WheelUp,
        KeyId::WheelDown,
        KeyId::WheelClick,
        KeyId::Mode,
    ]
}

#[test]
fn v2_fixture_kp01_kp02_and_model_coverage() {
    let v2 = KeyMap::v2();
    assert_eq!(
        v2.resolve(EvdevTuple {
            ev_type: 1,
            code: 2,
            qualifier: 1
        }),
        Some(KeyId::Kp01)
    );
    assert_eq!(v2.get(1, 2, 1), Some(KeyId::Kp01));
    assert_eq!(v2.get(1, 3, 1), Some(KeyId::Kp02));
    for id in keypad_and_wheel_mode() {
        assert!(v2.contains(id), "V2 map missing {id:?}");
    }
    let pro = KeyMap::pro();
    for id in keypad_and_wheel_mode() {
        assert!(pro.contains(id), "Pro map missing {id:?}");
    }
    assert!(!v2.contains(KeyId::ThumbN));
    assert!(!v2.contains(KeyId::AnalogUp));
    assert!(!pro.contains(KeyId::ThumbN));
    assert!(!pro.contains(KeyId::AnalogUp));
}

#[test]
fn a_bare_modifier_key_sends_the_same_code_the_modifier_does() {
    assert_eq!(
        token_to_evdev(KeyToken::LeftShift),
        modifier_to_evdev(Modifier::Shift)
    );
    assert_eq!(
        token_to_evdev(KeyToken::LeftCtrl),
        modifier_to_evdev(Modifier::Ctrl)
    );
    assert_eq!(
        token_to_evdev(KeyToken::LeftAlt),
        modifier_to_evdev(Modifier::Alt)
    );
}

#[test]
fn the_wheel_resolves_by_direction() {
    let v2 = KeyMap::v2();
    assert_eq!(v2.get(2, 8, 1), Some(KeyId::WheelUp));
    assert_eq!(v2.get(2, 8, -1), Some(KeyId::WheelDown));
    assert_eq!(v2.get(2, 8, 0), None);
    assert_eq!(v2.get(1, 999, 1), None);
}

#[test]
fn bind_labels() {
    assert_eq!(bind_label(None), "");
    assert_eq!(
        bind_label(Some(&Action::Key {
            key: KeyToken::Q,
            modifiers: vec![]
        })),
        "Q"
    );
    assert_eq!(
        bind_label(Some(&Action::Key {
            key: KeyToken::C,
            modifiers: vec![Modifier::Ctrl]
        })),
        "Ctrl+C"
    );
    assert_eq!(
        bind_label(Some(&Action::Macro {
            steps: vec![MacroStep {
                kind: MacroKind::Key {
                    key: KeyToken::Num1,
                    modifiers: vec![]
                },
                edge: Edge::Tap,
                delay_ms: 0,
            }],
        })),
        "Macro"
    );
    assert_eq!(
        bind_label(Some(&Action::Mouse {
            target: MouseTarget::Button {
                button: MouseButton::Left
            }
        })),
        "M1"
    );
    assert_eq!(
        bind_label(Some(&Action::Mouse {
            target: MouseTarget::Scroll {
                scroll: ScrollDir::Up
            }
        })),
        "Wheel+"
    );
}

#[test]
fn combos_join_every_modifier_and_other_keys_read_by_name() {
    assert_eq!(
        bind_label(Some(&Action::Key {
            key: KeyToken::F5,
            modifiers: vec![Modifier::Ctrl, Modifier::ShiftR]
        })),
        "Ctrl+ShiftR+F5"
    );
    assert_eq!(
        bind_label(Some(&Action::HoldRepeat {
            inner: Box::new(Action::Key {
                key: KeyToken::PageDown,
                modifiers: vec![]
            }),
            rate_ms: 40
        })),
        "PageDown"
    );
}

#[test]
fn bare_modifier_keys_read_like_the_modifiers_do() {
    for (token, label) in [
        (KeyToken::CapsLock, "Caps"),
        (KeyToken::LeftShift, "Shift"),
        (KeyToken::LeftCtrl, "Ctrl"),
        (KeyToken::LeftAlt, "Alt"),
    ] {
        assert_eq!(
            bind_label(Some(&Action::Key {
                key: token,
                modifiers: vec![]
            })),
            label
        );
    }
}

#[test]
fn switch_labels_are_short_enough_for_a_keycap() {
    assert_eq!(
        bind_label(Some(&Action::SwitchProfile {
            profile: "dota-2".into()
        })),
        "Profile"
    );
    assert_eq!(bind_label(Some(&Action::NextProfile)), "Next");
}

#[test]
fn profile_list_order_is_pack_order() {
    let ids: Vec<String> = vec!["path-of-exile".into(), "default".into(), "dota-2".into()];
    assert_eq!(
        profile_row_order(&ids),
        vec!["default", "dota-2", "path-of-exile"]
    );
    assert_eq!(SHIPPED_IDS[0], "default");
}

#[test]
fn custom_profiles_follow_the_pack_in_their_own_order() {
    let ids: Vec<String> = vec!["zz-mine".into(), "minecraft".into(), "aa-mine".into(), "default".into()];
    assert_eq!(
        profile_row_order(&ids),
        vec!["default", "minecraft", "zz-mine", "aa-mine"]
    );
}

#[test]
fn grid_keys_are_named_and_placed_by_row() {
    assert_eq!(key_display_name(KeyId::Kp01), "Key 01");
    assert_eq!(key_position_text(KeyId::Kp01), "row 1 · key 1");
    assert_eq!(key_display_name(KeyId::Kp07), "Key 07");
    assert_eq!(key_position_text(KeyId::Kp07), "row 2 · key 2");
    assert_eq!(key_display_name(KeyId::Kp15), "Key 15");
    assert_eq!(key_position_text(KeyId::Kp15), "row 3 · key 5");
    assert_eq!(key_display_name(KeyId::Kp19), "Key 19");
    assert_eq!(key_position_text(KeyId::Kp19), "row 4 · key 4");
}

#[test]
fn thumb_key_is_named_as_the_thumb_key_not_row_five() {
    assert_eq!(key_display_name(KeyId::Kp20), "Key 20");
    assert_eq!(key_position_text(KeyId::Kp20), "thumb key");
}

#[test]
fn wheel_and_mode_have_their_own_names() {
    assert_eq!(key_display_name(KeyId::WheelUp), "Wheel up");
    assert_eq!(key_display_name(KeyId::WheelDown), "Wheel down");
    assert_eq!(key_display_name(KeyId::WheelClick), "Wheel click");
    assert_eq!(key_display_name(KeyId::Mode), "Mode");
    assert_eq!(key_position_text(KeyId::WheelUp), "wheel");
    assert_eq!(key_position_text(KeyId::Mode), "wheel column");
}

#[test]
fn thumb_directions_and_analog_are_distinguishable() {
    assert_eq!(key_display_name(KeyId::ThumbN), "Thumb north");
    assert_eq!(key_display_name(KeyId::ThumbSw), "Thumb south-west");
    assert_eq!(key_position_text(KeyId::ThumbN), "thumb pad");
    assert_eq!(key_display_name(KeyId::AnalogLeft), "Analog left");
    assert_eq!(key_position_text(KeyId::AnalogLeft), "analog stick");
}

#[test]
fn every_key_id_has_a_unique_name_and_a_position() {
    let mut names = Vec::with_capacity(KeyId::ALL.len());
    for id in KeyId::ALL {
        let name = key_display_name(id);
        assert!(!name.is_empty(), "name for {id:?}");
        assert!(!key_position_text(id).is_empty(), "position for {id:?}");
        names.push(name);
    }
    let total = names.len();
    names.sort();
    names.dedup();
    assert_eq!(names.len(), total, "two keys must not share a display name");
}

#[test]
fn the_row_tables_agree_with_the_twenty_face_keys() {
    assert_eq!(GRID_ROW_LENGTHS.iter().sum::<usize>(), GRID_KEY_COUNT);
    assert_eq!(key_position_text(KeyId::Kp20), "thumb key");
    let face_keys = GRID_KEY_COUNT + 1;
    assert_eq!(face_keys, 20, "the pad has twenty numbered keys");
}

#[test]
fn static_writes_rgb_on_mock() {
    let mut c = RecordingLighting {
        available: true,
        last: None,
    };
    let l = Lighting {
        effect: LightingEffect::Static,
        brightness: 80,
        color: Some([0, 180, 255]),
    };
    c.apply(&l).unwrap();
    assert_eq!(c.last.unwrap().color, Some([0, 180, 255]));
    assert_eq!(brightness_to_razer(80), 204);
    assert_eq!(wave_sysfs_value(), 1);
}

#[test]
fn brightness_scale_rounds_half_up_and_tops_out() {
    assert_eq!(brightness_to_razer(0), 0);
    assert_eq!(brightness_to_razer(10), 26);
    assert_eq!(brightness_to_razer(50), 128);
    assert_eq!(brightness_to_razer(100), 255);
    assert_eq!(brightness_to_razer(200), 255);
}

#[test]
fn absent_returns_lighting_and_caller_can_still_apply_profile() {
    let mut c = NullLighting;
    assert!(!c.available());
    let err = c
        .apply(&Lighting {
            effect: LightingEffect::Off,
            brightness: 80,
            color: None,
        })
        .unwrap_err();
    assert_eq!(err, ErrorCode::Lighting);
    assert_eq!(err.user_message(), "Lighting needs OpenRazer or OpenRGB.");
}

fn sample() -> Lighting {
    Lighting {
        effect: LightingEffect::Spectrum,
        brightness: 40,
        color: None,
    }
}

#[test]
fn daemon_up_means_lighting_even_with_other_frontends() {
    const POLYCHROMATIC_AND_RAZERGENIE: usize = 2;
    assert!(openrazer_lighting_ready(true, false, POLYCHROMATIC_AND_RAZERGENIE));
    assert!(openrazer_lighting_ready(true, true, POLYCHROMATIC_AND_RAZERGENIE));
    assert!(openrazer_lighting_ready(false, true, POLYCHROMATIC_AND_RAZERGENIE));
    assert!(!openrazer_lighting_ready(false, false, POLYCHROMATIC_AND_RAZERGENIE));
    assert!(!openrazer_lighting_ready(false, false, 0));
    assert!(!peer_frontends_make_openrazer_missing(POLYCHROMATIC_AND_RAZERGENIE));
    assert!(!should_request_openrazer_bus_name());
}

#[test]
fn chain_uses_openrazer_first_then_openrgb() {
    let mut chain = LightingChain::new(
        RecordingLighting {
            available: true,
            last: None,
        },
        RecordingLighting {
            available: true,
            last: None,
        },
    );
    assert!(chain.available());
    chain.apply(&sample()).unwrap();
    assert_eq!(
        chain.primary().last.as_ref().unwrap().effect,
        LightingEffect::Spectrum
    );
    assert!(chain.fallback().last.is_none());
}

#[test]
fn chain_uses_openrgb_when_openrazer_is_down() {
    let mut chain = LightingChain::new(
        NullLighting,
        RecordingLighting {
            available: true,
            last: None,
        },
    );
    assert!(chain.available());
    chain.apply(&sample()).unwrap();
    assert_eq!(chain.fallback().last.as_ref().unwrap().brightness, 40);
}

struct AvailableFail;

impl LightingClient for AvailableFail {
    fn apply(&mut self, _lighting: &Lighting) -> Result<(), ErrorCode> {
        Err(ErrorCode::Lighting)
    }
    fn available(&self) -> bool {
        true
    }
}

#[test]
fn chain_does_not_call_openrgb_while_openrazer_reports_available() {
    let mut chain = LightingChain::new(
        AvailableFail,
        RecordingLighting {
            available: true,
            last: None,
        },
    );
    assert!(chain.available());
    assert_eq!(chain.apply(&sample()), Err(ErrorCode::Lighting));
    assert!(chain.fallback().last.is_none());
}

#[test]
fn a_chain_with_nothing_available_fails_with_lighting() {
    let mut chain = LightingChain::new(NullLighting, NullLighting);
    assert!(!chain.available());
    assert_eq!(chain.apply(&sample()), Err(ErrorCode::Lighting));
}

#[test]
fn is_shipped_knows_the_pack_and_nothing_else() {
    for id in SHIPPED_IDS {
        assert!(is_shipped(id), "{id} ships with the app");
    }
    assert!(!is_shipped("my-raid-layout"));
    assert!(!is_shipped(""));
    assert!(!is_shipped("Default"));
}

#[test]
fn shipped_ids_are_pack_order() {
    assert_eq!(SHIPPED_IDS.len(), 16);
    assert_eq!(SHIPPED_IDS[0], "default");
    assert_eq!(
        &SHIPPED_IDS[1..6],
        &[
            "league-of-legends",
            "dota-2",
            "world-of-warcraft",
            "final-fantasy-xiv",
            "path-of-exile",
        ]
    );
    assert_eq!(
        &SHIPPED_IDS[6..],
        &[
            "overwatch-2",
            "valorant",
            "counter-strike-2",
            "apex-legends",
            "fortnite",
            "diablo-4",
            "elden-ring",
            "guild-wars-2",
            "elder-scrolls-online",
            "minecraft",
        ]
    );
}

#[test]
fn submit_completes() {
    let mut r = Recorder::default();
    r.start(KeyId::Kp01, None, 0).unwrap();
    let out = r.submit_key(KeyToken::C, vec![Modifier::Ctrl]).unwrap();
    match out {
        RecordOutcome::Recorded { key_id, action } => {
            assert_eq!(key_id, KeyId::Kp01);
            assert!(matches!(action, Action::Key { .. }));
        }
        _ => panic!("expected recorded"),
    }
    assert!(!r.is_active());
}

#[test]
fn timeout_writes_nothing() {
    let mut r = Recorder::default();
    r.start(KeyId::Kp01, Some(50), 0).unwrap();
    let out = r.on_timeout(50).unwrap();
    assert!(matches!(
        out,
        RecordOutcome::Cancelled {
            reason: RecordReason::Timeout
        }
    ));
    assert!(!r.is_active());
}

#[test]
fn stop_and_second_start() {
    let mut r = Recorder::default();
    r.start(KeyId::Kp01, None, 0).unwrap();
    assert!(r.stop());
    assert!(r.on_timeout(0).is_none());
    r.start(KeyId::Kp02, None, 0).unwrap();
    assert_eq!(
        r.start(KeyId::Kp03, None, 1).unwrap_err(),
        ErrorCode::RecordBusy
    );
}

#[test]
fn submit_without_session_is_not_found() {
    let mut r = Recorder::default();
    assert_eq!(
        r.submit_key(KeyToken::A, vec![]).unwrap_err(),
        ErrorCode::NotFound
    );
}

#[test]
fn a_recording_waits_the_default_time_and_never_more_than_the_maximum() {
    let mut r = Recorder::new();
    assert_eq!(r.start(KeyId::Kp01, None, 1000), Ok((KeyId::Kp01, 11000)));
    assert!(r.on_timeout(10999).is_none());
    assert!(r.is_active());
    let mut long = Recorder::new();
    assert_eq!(long.start(KeyId::Kp02, Some(600_000), 0), Ok((KeyId::Kp02, 60000)));
    assert_eq!(long.session().unwrap().deadline_ms, 60000);
}

#[test]
fn a_disconnect_cancels_an_open_recording_only() {
    let mut r = Recorder::new();
    assert!(r.on_disconnect().is_none());
    r.start(KeyId::Kp05, None, 0).unwrap();
    assert_eq!(
        r.on_disconnect(),
        Some(RecordOutcome::Cancelled {
            reason: RecordReason::Disconnected
        })
    );
    assert!(!r.is_active());
    r.start(KeyId::Kp05, None, 0).unwrap();
    let out = r
        .submit_mouse(MouseTarget::Scroll {
            scroll: ScrollDir::Down,
        })
        .unwrap();
    assert_eq!(
        out,
        RecordOutcome::Recorded {
            key_id: KeyId::Kp05,
            action: Action::Mouse {
                target: MouseTarget::Scroll {
                    scroll: ScrollDir::Down
                }
            }
        }
    );
}

#[test]
fn naga_ids_are_not_a_tartarus() {
    assert!(!opentartarus::remap::allow_grab(USB_VID_RAZER, USB_PID_NAGA_PRO_1));
    assert!(opentartarus::remap::allow_grab(USB_VID_RAZER, USB_PID_TARTARUS_V2));
    assert!(opentartarus::remap::allow_grab(USB_VID_RAZER, USB_PID_TARTARUS_PRO));
}
