use opentartarus::constants::{
    USB_PID_NAGA_PRO_1, USB_PID_TARTARUS_PRO, USB_PID_TARTARUS_V2, USB_VID_RAZER,
};
use opentartarus::keymap::{modifier_to_evdev, token_to_evdev};
use opentartarus::profile::{Bindings, Profile};
use opentartarus::remap::{allow_grab, Clock, Emitted, RawEvent, RemapEngine};
use opentartarus::types::{
    Action, DeviceModel, Edge, GameId, KeyId, KeyToken, Lighting, LightingEffect, MacroKind,
    MacroStep, Modifier, MouseButton, MouseTarget, ScrollDir,
};

struct FakeClock {
    t: u64,
}

impl Clock for FakeClock {
    fn now_ms(&self) -> u64 {
        self.t
    }
    fn sleep_ms(&mut self, ms: u64) {
        self.t += ms;
    }
}

fn profile(model: DeviceModel, bindings: Vec<(KeyId, Action)>) -> Profile {
    let mut b = Bindings::new();
    for (k, a) in bindings {
        b.insert(k, a);
    }
    Profile {
        id: "t".into(),
        name: "t".into(),
        game: GameId::Default,
        device_models: vec![model],
        bindings: b,
        lighting: Lighting {
            effect: LightingEffect::Off,
            brightness: 80,
            color: None,
        },
        setup_note: None,
        unknown_key_ids: false,
    }
}

fn engine_with(kp01: Action) -> RemapEngine {
    profile_with(DeviceModel::V2, KeyId::Kp01, kp01)
}

fn profile_with(model: DeviceModel, id: KeyId, action: Action) -> RemapEngine {
    let p = profile(model, vec![(id, action)]);
    let mut e = RemapEngine::new(model);
    e.apply_profile(&p);
    e
}

fn press_kp01() -> RawEvent {
    RawEvent {
        vid: USB_VID_RAZER,
        pid: USB_PID_TARTARUS_V2,
        ev_type: 1,
        code: 2,
        value: 1,
    }
}

fn key(token: KeyToken) -> Action {
    Action::Key {
        key: token,
        modifiers: vec![],
    }
}

#[test]
fn kp01_emits_q() {
    let mut e = engine_with(key(KeyToken::Q));
    let mut s: Vec<Emitted> = vec![];
    let mut c = FakeClock { t: 0 };
    e.handle(press_kp01(), &mut s, &mut c);
    e.handle(RawEvent { value: 0, ..press_kp01() }, &mut s, &mut c);
    let q = token_to_evdev(KeyToken::Q);
    assert!(s.iter().any(|x| x.keyboard && x.code == q && x.value == 1));
    assert!(s.iter().any(|x| x.keyboard && x.code == q && x.value == 0));
}

#[test]
fn combo_ctrl_c() {
    let mut e = engine_with(Action::Key {
        key: KeyToken::C,
        modifiers: vec![Modifier::Ctrl],
    });
    let mut s: Vec<Emitted> = vec![];
    let mut c = FakeClock { t: 0 };
    e.handle(press_kp01(), &mut s, &mut c);
    let codes: Vec<(u16, i32)> = s.iter().map(|x| (x.code, x.value)).collect();
    let ctrl = modifier_to_evdev(Modifier::Ctrl);
    let c_code = token_to_evdev(KeyToken::C);
    assert_eq!(codes, vec![(ctrl, 1), (c_code, 1)]);
    s.clear();
    e.handle(RawEvent { value: 0, ..press_kp01() }, &mut s, &mut c);
    let up: Vec<(u16, i32)> = s.iter().map(|x| (x.code, x.value)).collect();
    assert_eq!(up, vec![(c_code, 0), (ctrl, 0)]);
}

#[test]
fn macro_two_taps_respects_delay() {
    let mut e = engine_with(Action::Macro {
        steps: vec![
            MacroStep {
                kind: MacroKind::Key {
                    key: KeyToken::Num1,
                    modifiers: vec![],
                },
                edge: Edge::Tap,
                delay_ms: 50,
            },
            MacroStep {
                kind: MacroKind::Key {
                    key: KeyToken::Num2,
                    modifiers: vec![],
                },
                edge: Edge::Tap,
                delay_ms: 0,
            },
        ],
    });
    let mut s: Vec<Emitted> = vec![];
    let mut c = FakeClock { t: 0 };
    e.handle(press_kp01(), &mut s, &mut c);
    while e.has_timed_work() {
        if let Some(due) = e.pending_deadline_ms() {
            if c.t < due {
                c.t = due;
            }
        }
        e.tick(&mut s, &mut c);
    }
    assert!(c.t >= 50);
    let one = token_to_evdev(KeyToken::Num1);
    let two = token_to_evdev(KeyToken::Num2);
    let first_two = s.iter().position(|x| x.code == two && x.value == 1).unwrap();
    let first_one = s.iter().position(|x| x.code == one && x.value == 1).unwrap();
    assert!(first_one < first_two);
}

#[test]
fn hold_repeat_and_passthrough_and_naga() {
    let mut e = engine_with(Action::HoldRepeat {
        inner: Box::new(key(KeyToken::E)),
        rate_ms: 40,
    });
    let mut s: Vec<Emitted> = vec![];
    let mut c = FakeClock { t: 0 };
    e.handle(press_kp01(), &mut s, &mut c);
    e.handle(RawEvent { value: 2, ..press_kp01() }, &mut s, &mut c);
    e.handle(RawEvent { value: 0, ..press_kp01() }, &mut s, &mut c);
    let ecode = token_to_evdev(KeyToken::E);
    assert!(s.iter().any(|x| x.code == ecode && x.value == 1));
    assert!(s.iter().any(|x| x.code == ecode && x.value == 0));

    let mut s2: Vec<Emitted> = vec![];
    let kp02_down = RawEvent {
        vid: USB_VID_RAZER,
        pid: USB_PID_TARTARUS_V2,
        ev_type: 1,
        code: 3,
        value: 1,
    };
    e.handle(kp02_down, &mut s2, &mut c);
    e.handle(RawEvent { value: 0, ..kp02_down }, &mut s2, &mut c);
    assert!(s2.iter().any(|x| x.code == 3 && x.value == 1));
    assert!(s2.iter().any(|x| x.code == 3 && x.value == 0));

    assert!(!allow_grab(USB_VID_RAZER, USB_PID_NAGA_PRO_1));
    assert!(allow_grab(USB_VID_RAZER, USB_PID_TARTARUS_V2));
    assert!(allow_grab(USB_VID_RAZER, USB_PID_TARTARUS_PRO));
}

#[test]
fn naga_handle_emits_nothing() {
    let mut e = engine_with(key(KeyToken::Q));
    let mut s: Vec<Emitted> = vec![];
    let mut c = FakeClock { t: 0 };
    e.handle(
        RawEvent {
            vid: USB_VID_RAZER,
            pid: USB_PID_NAGA_PRO_1,
            ev_type: 1,
            code: 2,
            value: 1,
        },
        &mut s,
        &mut c,
    );
    assert!(s.is_empty());
}

#[test]
fn thumb_hat_eight_way_is_first_class() {
    let mut e = profile_with(DeviceModel::V2, KeyId::ThumbNe, key(KeyToken::W));
    let mut s: Vec<Emitted> = vec![];
    let mut c = FakeClock { t: 0 };
    let w = token_to_evdev(KeyToken::W);
    let hat = |code: u16, value: i32| RawEvent {
        vid: USB_VID_RAZER,
        pid: USB_PID_TARTARUS_V2,
        ev_type: 3,
        code,
        value,
    };
    e.handle(hat(16, 1), &mut s, &mut c);
    e.handle(hat(17, -1), &mut s, &mut c);
    assert!(s.iter().any(|x| x.code == w && x.value == 1));
    s.clear();
    e.handle(hat(16, 0), &mut s, &mut c);
    e.handle(hat(17, 0), &mut s, &mut c);
    assert!(s.iter().any(|x| x.code == w && x.value == 0));
}

#[test]
fn analog_uses_press_and_release_ratios() {
    let mut e = profile_with(DeviceModel::Pro, KeyId::AnalogRight, key(KeyToken::D));
    let mut s: Vec<Emitted> = vec![];
    let mut c = FakeClock { t: 0 };
    let d = token_to_evdev(KeyToken::D);
    let press = RawEvent {
        vid: USB_VID_RAZER,
        pid: USB_PID_TARTARUS_PRO,
        ev_type: 3,
        code: 0,
        value: 180,
    };
    e.handle(press, &mut s, &mut c);
    assert!(s.iter().any(|x| x.code == d && x.value == 1));
    s.clear();
    e.handle(RawEvent { value: 168, ..press }, &mut s, &mut c);
    assert!(s.is_empty());
    e.handle(RawEvent { value: 160, ..press }, &mut s, &mut c);
    assert!(s.iter().any(|x| x.code == d && x.value == 0));
}

#[test]
fn mouse_action_emits_on_mouse_device() {
    let mut e = engine_with(Action::Mouse {
        target: MouseTarget::Button {
            button: MouseButton::Left,
        },
    });
    let mut s: Vec<Emitted> = vec![];
    let mut c = FakeClock { t: 0 };
    e.handle(press_kp01(), &mut s, &mut c);
    e.handle(RawEvent { value: 0, ..press_kp01() }, &mut s, &mut c);
    assert!(s.iter().any(|x| !x.keyboard && x.code == 272 && x.value == 1));
    assert!(s.iter().any(|x| !x.keyboard && x.code == 272 && x.value == 0));
}

#[test]
fn hold_repeat_emits_extra_down_when_rate_elapsed() {
    let mut e = engine_with(Action::HoldRepeat {
        inner: Box::new(key(KeyToken::E)),
        rate_ms: 40,
    });
    let mut s: Vec<Emitted> = vec![];
    let mut c = FakeClock { t: 0 };
    e.handle(press_kp01(), &mut s, &mut c);
    c.t = 40;
    e.tick(&mut s, &mut c);
    let ecode = token_to_evdev(KeyToken::E);
    let downs = s.iter().filter(|x| x.code == ecode && x.value == 1).count();
    assert_eq!(downs, 2);
}

#[test]
fn hold_repeat_ignores_kernel_auto_repeat() {
    let mut e = engine_with(Action::HoldRepeat {
        inner: Box::new(key(KeyToken::E)),
        rate_ms: 40,
    });
    let mut s: Vec<Emitted> = vec![];
    let mut c = FakeClock { t: 0 };
    e.handle(press_kp01(), &mut s, &mut c);
    c.t = 40;
    e.handle(RawEvent { value: 2, ..press_kp01() }, &mut s, &mut c);
    let ecode = token_to_evdev(KeyToken::E);
    let downs = s.iter().filter(|x| x.code == ecode && x.value == 1).count();
    assert_eq!(downs, 1);
    e.tick(&mut s, &mut c);
    let downs = s.iter().filter(|x| x.code == ecode && x.value == 1).count();
    assert_eq!(downs, 2);
}

#[test]
fn macro_press_does_not_sleep_and_other_keys_remap() {
    let p = profile(
        DeviceModel::V2,
        vec![
            (
                KeyId::Kp01,
                Action::Macro {
                    steps: vec![MacroStep {
                        kind: MacroKind::Key {
                            key: KeyToken::Num1,
                            modifiers: vec![],
                        },
                        edge: Edge::Tap,
                        delay_ms: 50,
                    }],
                },
            ),
            (KeyId::Kp02, key(KeyToken::Q)),
        ],
    );
    let mut e = RemapEngine::new(DeviceModel::V2);
    e.apply_profile(&p);
    let mut s: Vec<Emitted> = vec![];
    let mut c = FakeClock { t: 0 };
    e.handle(press_kp01(), &mut s, &mut c);
    assert_eq!(c.t, 0, "macro must not sleep inside handle");
    assert!(e.has_timed_work());
    let kp02 = RawEvent {
        vid: USB_VID_RAZER,
        pid: USB_PID_TARTARUS_V2,
        ev_type: 1,
        code: 3,
        value: 1,
    };
    e.handle(kp02, &mut s, &mut c);
    let q = token_to_evdev(KeyToken::Q);
    assert!(s.iter().any(|x| x.code == q && x.value == 1));
    let one = token_to_evdev(KeyToken::Num1);
    e.handle(press_kp01(), &mut s, &mut c);
    let ones = s.iter().filter(|x| x.code == one && x.value == 1).count();
    assert_eq!(ones, 1, "second macro press is ignored while busy");
}

#[test]
fn an_unbound_key_passes_through_unchanged() {
    let mut e = RemapEngine::new(DeviceModel::V2);
    let mut s: Vec<Emitted> = vec![];
    e.handle_at(RawEvent { value: 1, ..press_kp01() }, 0, &mut s);
    assert_eq!(
        s,
        vec![Emitted {
            keyboard: true,
            ev_type: 1,
            code: 2,
            value: 1
        }]
    );
}

#[test]
fn a_wheel_notch_presses_and_releases_its_binding() {
    let mut e = profile_with(
        DeviceModel::V2,
        KeyId::WheelDown,
        Action::Mouse {
            target: MouseTarget::Scroll {
                scroll: ScrollDir::Down,
            },
        },
    );
    let mut s: Vec<Emitted> = vec![];
    e.handle_at(
        RawEvent {
            vid: USB_VID_RAZER,
            pid: USB_PID_TARTARUS_V2,
            ev_type: 2,
            code: 8,
            value: -1,
        },
        0,
        &mut s,
    );
    assert_eq!(
        s,
        vec![Emitted {
            keyboard: false,
            ev_type: 2,
            code: 8,
            value: -1
        }]
    );
}

#[test]
fn a_macro_plays_to_the_end_and_frees_the_engine() {
    let mut e = engine_with(Action::Macro {
        steps: vec![MacroStep {
            kind: MacroKind::Key {
                key: KeyToken::A,
                modifiers: vec![Modifier::Shift],
            },
            edge: Edge::Tap,
            delay_ms: 0,
        }],
    });
    let mut s: Vec<Emitted> = vec![];
    e.handle_at(press_kp01(), 100, &mut s);
    assert_eq!(e.pending_deadline_ms(), Some(120));
    e.tick_at(119, &mut s);
    assert_eq!(s.len(), 2);
    e.tick_at(120, &mut s);
    assert!(!e.has_timed_work());
    let shift = modifier_to_evdev(Modifier::Shift);
    let a = token_to_evdev(KeyToken::A);
    let codes: Vec<(u16, i32)> = s.iter().map(|x| (x.code, x.value)).collect();
    assert_eq!(codes, vec![(shift, 1), (a, 1), (a, 0), (shift, 0)]);
}

#[test]
fn a_long_wait_fires_once_per_whole_period() {
    let mut e = engine_with(Action::HoldRepeat {
        inner: Box::new(key(KeyToken::E)),
        rate_ms: 40,
    });
    let mut s: Vec<Emitted> = vec![];
    e.handle_at(press_kp01(), 0, &mut s);
    e.tick_at(130, &mut s);
    assert_eq!(s.len(), 4);
    assert_eq!(e.pending_deadline_ms(), Some(160));
    e.handle_at(RawEvent { value: 0, ..press_kp01() }, 140, &mut s);
    assert!(!e.has_timed_work());
    e.tick_at(1000, &mut s);
    assert_eq!(s.len(), 5);
}

#[test]
fn a_plain_combo_is_one_action_per_press() {
    let combo = Action::Key {
        key: KeyToken::E,
        modifiers: vec![Modifier::Ctrl],
    };
    let mut e = engine_with(combo);
    let mut s: Vec<Emitted> = vec![];
    let mut c = FakeClock { t: 0 };
    e.handle(press_kp01(), &mut s, &mut c);
    let downs: Vec<&Emitted> = s.iter().filter(|x| x.value == 1).collect();
    assert_eq!(downs.len(), 2, "the modifier and the key, once each");
    assert!(!e.has_timed_work(), "nothing left to repeat or play");
}

#[test]
fn a_hold_repeat_keeps_going_until_release() {
    let held = Action::HoldRepeat {
        inner: Box::new(key(KeyToken::Q)),
        rate_ms: 50,
    };
    let mut e = engine_with(held);
    let mut s: Vec<Emitted> = vec![];
    let mut c = FakeClock { t: 0 };
    e.handle(press_kp01(), &mut s, &mut c);
    assert!(e.has_timed_work());
    e.handle(RawEvent { value: 0, ..press_kp01() }, &mut s, &mut c);
    assert!(!e.has_timed_work());
}

#[test]
fn a_key_bound_only_by_an_earlier_profile_passes_through() {
    let mut e = engine_with(key(KeyToken::Q));
    let later = profile(DeviceModel::V2, vec![(KeyId::Kp02, key(KeyToken::W))]);
    e.apply_profile(&later);
    let mut s: Vec<Emitted> = vec![];
    let mut c = FakeClock { t: 0 };
    e.handle(press_kp01(), &mut s, &mut c);
    assert_eq!(s.len(), 1);
    assert_eq!(s[0].code, press_kp01().code, "the raw event goes through");
    assert_eq!(s[0].value, 1);
    assert!(!e.has_timed_work());
}
