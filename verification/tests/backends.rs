use opentartarus::constants::{
    USB_PID_NAGA_PRO_1, USB_PID_TARTARUS_PRO, USB_PID_TARTARUS_V2, USB_VID_RAZER,
};
use opentartarus::error::ErrorCode;
use opentartarus::openrazer::{
    choose_sysfs_node, dbus_device_matches, dbus_effect_args, dbus_effect_method_name,
    parse_usb_id, sysfs_brightness_payload, sysfs_effect_file_name, sysfs_effect_payload,
    sysfs_name_matches, OpenRazerClient, OPENRAZER_BUS_NAME,
};
use opentartarus::openrgb::{
    openrgb_args, openrgb_available, openrgb_device_name, openrgb_mode, permission_error_from_probes,
    rgb_hex, OpenRgbClient,
};
use opentartarus::types::{Lighting, LightingEffect};

fn lighting(effect: LightingEffect, brightness: u8, color: Option<[u8; 3]>) -> Lighting {
    Lighting {
        effect,
        brightness,
        color,
    }
}

#[test]
fn tartarus_v2_name_matches_live_openrgb_list() {
    assert_eq!(
        openrgb_device_name(Some(USB_VID_RAZER), Some(USB_PID_TARTARUS_V2)),
        Some("Razer Tartarus V2")
    );
    assert_eq!(
        openrgb_device_name(Some(USB_VID_RAZER), Some(USB_PID_TARTARUS_PRO)),
        Some("Tartarus Pro")
    );
    assert_eq!(openrgb_device_name(None, None), Some("Tartarus"));
    assert!(openrgb_device_name(Some(USB_VID_RAZER), Some(USB_PID_NAGA_PRO_1)).is_none());
}

#[test]
fn available_ignores_naga_and_needs_binary() {
    assert!(!openrgb_available(false, None, None));
    assert!(openrgb_available(true, None, None));
    assert!(openrgb_available(true, Some(USB_VID_RAZER), Some(USB_PID_TARTARUS_V2)));
    assert!(!openrgb_available(true, Some(USB_VID_RAZER), Some(USB_PID_NAGA_PRO_1)));
    assert!(!openrgb_available(true, Some(USB_VID_RAZER), None));
}

#[test]
fn args_use_documented_cli_and_verified_modes() {
    let static_args = openrgb_args(
        &lighting(LightingEffect::Static, 80, Some([0, 180, 255])),
        Some(USB_VID_RAZER),
        Some(USB_PID_TARTARUS_V2),
    )
    .unwrap();
    assert_eq!(
        static_args,
        vec![
            "--noautoconnect",
            "-d",
            "Razer Tartarus V2",
            "-m",
            "Static",
            "-b",
            "80",
            "-c",
            "00B4FF",
        ]
    );
    let spectrum = openrgb_args(
        &lighting(LightingEffect::Spectrum, 40, None),
        Some(USB_VID_RAZER),
        Some(USB_PID_TARTARUS_V2),
    )
    .unwrap();
    assert_eq!(spectrum[4], "Spectrum Cycle");
    assert!(!spectrum.contains(&"-c".to_string()));
    assert!(openrgb_args(
        &lighting(LightingEffect::Reactive, 50, Some([1, 2, 3])),
        Some(USB_VID_RAZER),
        Some(USB_PID_TARTARUS_V2),
    )
    .is_err());
}

#[test]
fn breathing_without_a_colour_is_white_and_unknown_pads_are_refused() {
    let args = openrgb_args(&lighting(LightingEffect::Breath, 5, None), None, None).unwrap();
    assert_eq!(
        args,
        vec!["--noautoconnect", "-d", "Tartarus", "-m", "Breathing", "-b", "5", "-c", "FFFFFF"]
    );
    assert_eq!(
        openrgb_args(&lighting(LightingEffect::Off, 0, None), Some(USB_VID_RAZER), Some(USB_PID_NAGA_PRO_1)),
        Err(ErrorCode::Lighting)
    );
    assert_eq!(openrgb_mode(LightingEffect::Starlight), Err(ErrorCode::Lighting));
    assert_eq!(openrgb_mode(LightingEffect::Off), Ok("Off"));
    assert_eq!(rgb_hex([10, 255, 0]), "0AFF00");
}

#[test]
fn the_client_remembers_and_forgets_the_pad() {
    let mut c = OpenRgbClient::new(None, None);
    c.set_usb(USB_VID_RAZER, USB_PID_TARTARUS_PRO);
    assert_eq!((c.vid, c.pid), (Some(USB_VID_RAZER), Some(USB_PID_TARTARUS_PRO)));
    c.clear_usb();
    assert_eq!((c.vid, c.pid), (None, None));
    let mut r = OpenRazerClient::new(None, None);
    r.set_usb(1, 2);
    assert_eq!((r.vid, r.pid), (Some(1), Some(2)));
    r.clear_usb();
    assert!(r.vid.is_none());
}

#[test]
fn probes_to_permission() {
    assert_eq!(permission_error_from_probes(false, true), Some(ErrorCode::Permission));
    assert_eq!(permission_error_from_probes(true, true), None);
    assert_eq!(
        ErrorCode::Permission.log_line(Some("EACCES")),
        "permission OpenTartarus can’t talk to your keypad yet. os=EACCES"
    );
}

#[test]
fn sysfs_name_matches_tartarus_ids() {
    assert!(sysfs_name_matches("0003:1532:022B.001B", USB_VID_RAZER, USB_PID_TARTARUS_V2));
    assert!(sysfs_name_matches("0003:1532:022b.001b", USB_VID_RAZER, USB_PID_TARTARUS_V2));
    assert!(sysfs_name_matches("0003:1532:0244.0001", USB_VID_RAZER, USB_PID_TARTARUS_PRO));
    assert!(!sysfs_name_matches("0003:1532:008F.0001", USB_VID_RAZER, USB_PID_TARTARUS_V2));
    assert_eq!(OPENRAZER_BUS_NAME, "org.razer");
}

#[test]
fn usb_ids_read_with_or_without_a_prefix() {
    assert_eq!(parse_usb_id(" 0x022b\n"), Some(0x022b));
    assert_eq!(parse_usb_id("1532"), Some(0x1532));
    assert_eq!(parse_usb_id("0X0244"), Some(0x0244));
    assert_eq!(parse_usb_id("nope"), None);
}

#[test]
fn the_driver_node_is_picked_by_ids_then_by_model_then_first() {
    let names: Vec<String> = vec![
        "0003:046D:C52B.0001".into(),
        "0003:1532:0244.0002".into(),
        "0003:1532:022B.0003".into(),
    ];
    assert_eq!(choose_sysfs_node(&names, Some(USB_VID_RAZER), Some(USB_PID_TARTARUS_V2)), Some(2));
    assert_eq!(choose_sysfs_node(&names, None, None), Some(1));
    assert_eq!(choose_sysfs_node(&names[..1], None, None), Some(0));
    assert_eq!(choose_sysfs_node(&names[..1], Some(USB_VID_RAZER), Some(USB_PID_TARTARUS_V2)), None);
    assert_eq!(choose_sysfs_node(&[], None, None), None);
}

#[test]
fn driver_writes_carry_the_effect_and_the_scaled_brightness() {
    let red = lighting(LightingEffect::Static, 80, Some([255, 0, 0]));
    assert_eq!(sysfs_effect_file_name(red.effect), "matrix_effect_static");
    assert_eq!(sysfs_effect_payload(&red), vec![255, 0, 0]);
    assert_eq!(sysfs_brightness_payload(80), b"204".to_vec());
    let wave = lighting(LightingEffect::Wave, 10, None);
    assert_eq!(sysfs_effect_payload(&wave), b"1".to_vec());
    let star = lighting(LightingEffect::Starlight, 10, None);
    assert_eq!(sysfs_effect_payload(&star), vec![2, 255, 255, 255]);
    assert_eq!(dbus_effect_method_name(LightingEffect::Starlight), "setStarlightSingle");
    assert_eq!(dbus_effect_args(&star), vec![255, 255, 255, 2]);
    assert_eq!(dbus_effect_args(&lighting(LightingEffect::Off, 0, None)), Vec::<u8>::new());
    assert!(dbus_device_matches(Some(1), Some(2), Some((1, 2))));
    assert!(!dbus_device_matches(Some(1), Some(2), Some((1, 3))));
    assert!(dbus_device_matches(Some(1), Some(2), None));
    assert!(dbus_device_matches(None, None, Some((9, 9))));
}
