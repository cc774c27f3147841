//! Driving the keypad's lighting through the OpenRGB command line: which
//! device name and mode to ask for, and the exact arguments.

use vstd::prelude::*;
use crate::constants::{
    OPENRGB_TARTARUS_PRO_NAME, OPENRGB_TARTARUS_V2_NAME, USB_PID_TARTARUS_PRO, USB_PID_TARTARUS_V2,
    USB_VID_RAZER,
};
use crate::error::ErrorCode;
use crate::remap::{allow_grab, is_tartarus};
use crate::text::{decimal, decimal_string, hex_digit, hex_upper_char};
use crate::types::{Lighting, LightingEffect};

verus! {

pub const OPENRGB_TARTARUS_SEARCH: &'static str = "Tartarus";

/// The keypad OpenRGB should drive: a known pad by its ids, or the first
/// pad it finds when the ids are not known yet.
pub struct OpenRgbClient {
    pub vid: Option<u16>,
    pub pid: Option<u16>,
}

impl OpenRgbClient {
    pub fn new(vid: Option<u16>, pid: Option<u16>) -> (c: OpenRgbClient)
        ensures c.vid == vid, c.pid == pid,
    {
        OpenRgbClient { vid, pid }
    }

    pub fn set_usb(&mut self, vid: u16, pid: u16)
        ensures final(self).vid == Some(vid), final(self).pid == Some(pid),
    {
        self.vid = Some(vid);
        self.pid = Some(pid);
    }

    pub fn clear_usb(&mut self)
        ensures final(self).vid is None, final(self).pid is None,
    {
        self.vid = None;
        self.pid = None;
    }
}

/// OpenRGB can light a Tartarus, or the first pad it finds when no ids are
/// known; half-known ids or any other device are not supported.
pub open spec fn ids_supported(vid: Option<u16>, pid: Option<u16>) -> bool {
    match (vid, pid) {
        (Some(v), Some(p)) => is_tartarus(v, p),
        (None, None) => true,
        _ => false,
    }
}

pub fn openrgb_ids_supported(vid: Option<u16>, pid: Option<u16>) -> (r: bool)
    ensures r == ids_supported(vid, pid),
{
    match (vid, pid) {
        (Some(v), Some(p)) => allow_grab(v, p),
        (None, None) => true,
        _ => false,
    }
}

/// OpenRGB is usable when its program is installed and the pad is supported.
pub fn openrgb_available(binary_present: bool, vid: Option<u16>, pid: Option<u16>) -> (r: bool)
    ensures r == (binary_present && ids_supported(vid, pid)),
{
    binary_present && openrgb_ids_supported(vid, pid)
}

/// The name OpenRGB lists the pad under.
pub open spec fn device_name(vid: Option<u16>, pid: Option<u16>) -> Option<Seq<char>> {
    match (vid, pid) {
        (Some(v), Some(p)) => if v == USB_VID_RAZER && p == USB_PID_TARTARUS_V2 {
            Some(OPENRGB_TARTARUS_V2_NAME@)
        } else if v == USB_VID_RAZER && p == USB_PID_TARTARUS_PRO {
            Some(OPENRGB_TARTARUS_PRO_NAME@)
        } else {
            None
        },
        (None, None) => Some(OPENRGB_TARTARUS_SEARCH@),
        _ => None,
    }
}

pub fn openrgb_device_name(vid: Option<u16>, pid: Option<u16>) -> (r: Option<&'static str>)
    ensures
        match device_name(vid, pid) {
            Some(n) => r matches Some(s) && s@ == n,
            None => r is None,
        },
{
    match (vid, pid) {
        (Some(v), Some(p)) => {
            if v == USB_VID_RAZER && p == USB_PID_TARTARUS_V2 {
                Some(OPENRGB_TARTARUS_V2_NAME)
            } else if v == USB_VID_RAZER && p == USB_PID_TARTARUS_PRO {
                Some(OPENRGB_TARTARUS_PRO_NAME)
            } else {
                None
            }
        },
        (None, None) => Some(OPENRGB_TARTARUS_SEARCH),
        _ => None,
    }
}

/// The OpenRGB mode for an effect; the reactive and starlight effects have
/// none.
pub open spec fn mode_name(effect: LightingEffect) -> Option<Seq<char>> {
    match effect {
        LightingEffect::Off => Some("Off"@),
        LightingEffect::Static => Some("Static"@),
        LightingEffect::Breath => Some("Breathing"@),
        LightingEffect::Spectrum => Some("Spectrum Cycle"@),
        LightingEffect::Wave => Some("Wave"@),
        LightingEffect::Reactive | LightingEffect::Starlight => None,
    }
}

pub fn openrgb_mode(effect: LightingEffect) -> (r: Result<&'static str, ErrorCode>)
    ensures
        match mode_name(effect) {
            Some(m) => r matches Ok(s) && s@ == m,
            None => r == Err::<&'static str, ErrorCode>(ErrorCode::Lighting),
        },
{
    match effect {
        LightingEffect::Off => Ok("Off"),
        LightingEffect::Static => Ok("Static"),
        LightingEffect::Breath => Ok("Breathing"),
        LightingEffect::Spectrum => Ok("Spectrum Cycle"),
        LightingEffect::Wave => Ok("Wave"),
        LightingEffect::Reactive | LightingEffect::Starlight => Err(ErrorCode::Lighting),
    }
}

/// The static and breathing modes take a colour.
pub open spec fn mode_uses_color(effect: LightingEffect) -> bool {
    effect == LightingEffect::Static || effect == LightingEffect::Breath
}

/// A byte as two uppercase hexadecimal digits.
pub open spec fn hex_byte(b: u8) -> Seq<char> {
    seq![hex_upper_char(b as int / 16), hex_upper_char(b as int % 16)]
}

/// A colour as six uppercase hexadecimal digits, red first.
pub open spec fn rgb_hex_text(rgb: [u8; 3]) -> Seq<char> {
    hex_byte(rgb[0]) + hex_byte(rgb[1]) + hex_byte(rgb[2])
}

fn push_hex_byte(out: &mut Vec<char>, b: u8)
    ensures final(out)@ == old(out)@ + hex_byte(b),
{
    out.push(hex_digit(b / 16, true));
    out.push(hex_digit(b % 16, true));
    assert(final(out)@ =~= old(out)@ + hex_byte(b));
}

pub fn rgb_hex(rgb: [u8; 3]) -> (s: String)
    ensures s@ == rgb_hex_text(rgb),
{
    let mut out: Vec<char> = Vec::new();
    push_hex_byte(&mut out, rgb[0]);
    push_hex_byte(&mut out, rgb[1]);
    push_hex_byte(&mut out, rgb[2]);
    assert(out@ =~= rgb_hex_text(rgb));
    crate::text::from_chars(&out)
}

/// The arguments for one lighting request: no auto-connect, the device,
/// the mode and the brightness, then the colour (white when none is set)
/// for the modes that take one.
pub open spec fn args_spec(lighting: Lighting, vid: Option<u16>, pid: Option<u16>) -> Option<Seq<Seq<char>>> {
    match device_name(vid, pid) {
        None => None,
        Some(device) => match mode_name(lighting.effect) {
            None => None,
            Some(mode) => {
                let base = seq!["--noautoconnect"@, "-d"@, device, "-m"@, mode, "-b"@, decimal(lighting.brightness as nat)];
                if mode_uses_color(lighting.effect) {
                    let rgb = match lighting.color {
                        Some(c) => c,
                        None => [255u8, 255u8, 255u8],
                    };
                    Some(base + seq!["-c"@, rgb_hex_text(rgb)])
                } else {
                    Some(base)
                }
            },
        },
    }
}

pub open spec fn arg_texts(v: Seq<String>) -> Seq<Seq<char>> {
    v.map_values(|s: String| s@)
}

pub fn openrgb_args(lighting: &Lighting, vid: Option<u16>, pid: Option<u16>) -> (r: Result<Vec<String>, ErrorCode>)
    ensures
        match args_spec(*lighting, vid, pid) {
            Some(a) => r matches Ok(v) && arg_texts(v@) == a,
            None => r == Err::<Vec<String>, ErrorCode>(ErrorCode::Lighting),
        },
{
    let device = match openrgb_device_name(vid, pid) {
        None => return Err(ErrorCode::Lighting),
        Some(d) => d,
    };
    let mode = match openrgb_mode(lighting.effect) {
        Err(e) => return Err(e),
        Ok(m) => m,
    };
    let mut args: Vec<String> = Vec::new();
    args.push("--noautoconnect".to_owned());
    args.push("-d".to_owned());
    args.push(device.to_owned());
    args.push("-m".to_owned());
    args.push(mode.to_owned());
    args.push("-b".to_owned());
    args.push(decimal_string(lighting.brightness as u64));
    if lighting.effect == LightingEffect::Static || lighting.effect == LightingEffect::Breath {
        let rgb = match lighting.color {
            Some(c) => c,
            None => [255u8, 255u8, 255u8],
        };
        args.push("-c".to_owned());
        args.push(rgb_hex(rgb));
    }
    assert(arg_texts(args@) =~= args_spec(*lighting, vid, pid)->0);
    Ok(args)
}

/// Startup needs both the virtual devices and the keypad's input nodes;
/// failing either is a permission problem.
pub fn permission_error_from_probes(uinput_ok: bool, evdev_ok: bool) -> (r: Option<ErrorCode>)
    ensures r == if uinput_ok && evdev_ok { None } else { Some(ErrorCode::Permission) },
{
    if uinput_ok && evdev_ok { None } else { Some(ErrorCode::Permission) }
}

} // verus!
