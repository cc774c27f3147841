//! Driving the keypad's lighting through OpenRazer: over its bus, or by
//! writing its driver's files; which node, which call, which bytes.

use vstd::prelude::*;
use crate::constants::{USB_PID_TARTARUS_PRO, USB_PID_TARTARUS_V2, USB_VID_RAZER};
use crate::lighting::{brightness_to_razer, razer_brightness, wave_sysfs_value};
use crate::scan::{parse_hex_u16, parse_hex_u16_exec};
use crate::text::{
    chars_of, contains_chars, contains_seq, decimal, hex_digit, hex_lower_char, hex_upper_char,
    push_decimal, trim_chars, trim_seq,
};
use crate::types::{Lighting, LightingEffect};

verus! {

pub const OPENRAZER_BUS_NAME: &'static str = "org.razer";
/// The colour used when a colour effect has none set.
pub const FALLBACK_RGB: [u8; 3] = [255, 255, 255];
/// The speed byte the reactive and starlight effects take.
pub const EFFECT_SPEED: u8 = 2;

/// The keypad OpenRazer should drive, when its ids are known.
pub struct OpenRazerClient {
    pub vid: Option<u16>,
    pub pid: Option<u16>,
}

impl OpenRazerClient {
    pub fn new(vid: Option<u16>, pid: Option<u16>) -> (c: OpenRazerClient)
        ensures c.vid == vid, c.pid == pid,
    {
        OpenRazerClient { vid, pid }
    }

    pub fn set_usb(&mut self, vid: u16, pid: u16)
        ensures final(self).vid == Some(vid), final(self).pid == Some(pid),
    {
        self.vid = Some(vid);
        self.pid = Some(pid);
    }

    pub fn clear_usb(&mut self)
        ensures final(self).vid is None, final(self).pid is None,
    {
        self.vid = None;
        self.pid = None;
    }
}

/// A 16-bit value as four hexadecimal digits.
pub open spec fn hex4(v: u16, upper: bool) -> Seq<char> {
    let d = |k: int| if upper { hex_upper_char(k) } else { hex_lower_char(k) };
    seq![d(v as int / 4096), d((v as int / 256) % 16), d((v as int / 16) % 16), d(v as int % 16)]
}

/// `vendor:product` in four-digit hexadecimal.
pub open spec fn id_pair_text(vid: u16, pid: u16, upper: bool) -> Seq<char> {
    hex4(vid, upper) + seq![':'] + hex4(pid, upper)
}

fn push_hex4(out: &mut Vec<char>, v: u16, upper: bool)
    ensures final(out)@ == old(out)@ + hex4(v, upper),
{
    out.push(hex_digit((v / 4096) as u8, upper));
    out.push(hex_digit(((v / 256) % 16) as u8, upper));
    out.push(hex_digit(((v / 16) % 16) as u8, upper));
    out.push(hex_digit((v % 16) as u8, upper));
    assert(final(out)@ =~= old(out)@ + hex4(v, upper));
}

/// Whether a driver node's name holds the keypad's ids, in either case.
pub open spec fn sysfs_name_has_ids(name: Seq<char>, vid: u16, pid: u16) -> bool {
    contains_seq(name, id_pair_text(vid, pid, true)) || contains_seq(name, id_pair_text(vid, pid, false))
}

pub fn sysfs_name_matches(name: &str, vid: u16, pid: u16) -> (r: bool)
    ensures r == sysfs_name_has_ids(name@, vid, pid),
{
    let text = chars_of(name);
    let mut upper: Vec<char> = Vec::new();
    push_hex4(&mut upper, vid, true);
    upper.push(':');
    push_hex4(&mut upper, pid, true);
    assert(upper@ =~= id_pair_text(vid, pid, true));
    let mut lower: Vec<char> = Vec::new();
    push_hex4(&mut lower, vid, false);
    lower.push(':');
    push_hex4(&mut lower, pid, false);
    assert(lower@ =~= id_pair_text(vid, pid, false));
    contains_chars(&text, &upper) || contains_chars(&text, &lower)
}

/// The number of leading copies of `p` in `s`.
pub open spec fn strip_all_prefix(s: Seq<char>, p: Seq<char>) -> Seq<char>
    decreases s.len(),
{
    if p.len() > 0 && p.len() <= s.len() && s.take(p.len() as int) == p {
        strip_all_prefix(s.skip(p.len() as int), p)
    } else {
        s
    }
}

/// A USB id as OpenRazer reports it: hexadecimal, with spaces around and
/// any `0x` (then `0X`) prefixes removed.
pub open spec fn usb_id(raw: Seq<char>) -> Option<u16> {
    parse_hex_u16(strip_all_prefix(strip_all_prefix(trim_seq(raw), "0x"@), "0X"@))
}

fn strip_all_prefix_exec(s: Vec<char>, p: &Vec<char>) -> (r: Vec<char>)
    ensures r@ == strip_all_prefix(s@, p@),
    decreases s@.len(),
{
    if p.len() > 0 && crate::text::starts_with_chars(&s, p) {
        let mut rest: Vec<char> = Vec::new();
        let mut i: usize = p.len();
        while i < s.len()
            invariant p.len() <= i <= s.len(), rest@ == s@.subrange(p.len() as int, i as int),
            decreases s.len() - i,
        {
            rest.push(s[i]);
            i += 1;
            assert(rest@ =~= s@.subrange(p.len() as int, i as int));
        }
        assert(rest@ =~= s@.skip(p.len() as int));
        strip_all_prefix_exec(rest, p)
    } else {
        s
    }
}

pub fn parse_usb_id(raw: &str) -> (r: Option<u16>)
    ensures r == usb_id(raw@),
{
    let t = trim_chars(&chars_of(raw));
    let a = strip_all_prefix_exec(t, &chars_of("0x"));
    let b = strip_all_prefix_exec(a, &chars_of("0X"));
    parse_hex_u16_exec(&b)
}

/// With the ids known, a device on the bus is the keypad when it reports
/// the same ids, or reports none; with the ids unknown, any device is.
pub fn dbus_device_matches(want_vid: Option<u16>, want_pid: Option<u16>, got: Option<(u16, u16)>) -> (r: bool)
    ensures
        r == match (want_vid, want_pid) {
            (Some(v), Some(p)) => match got {
                Some((gv, gp)) => gv == v && gp == p,
                None => true,
            },
            _ => true,
        },
{
    match (want_vid, want_pid) {
        (Some(v), Some(p)) => match got {
            Some((gv, gp)) => gv == v && gp == p,
            None => true,
        },
        _ => true,
    }
}

/// The first node whose name holds the given ids.
pub open spec fn first_with_ids(names: Seq<Seq<char>>, vid: u16, pid: u16) -> Option<int>
    decreases names.len(),
{
    if names.len() == 0 {
        None
    } else if sysfs_name_has_ids(names[0], vid, pid) {
        Some(0)
    } else {
        match first_with_ids(names.drop_first(), vid, pid) {
            Some(i) => Some(i + 1),
            None => None,
        }
    }
}

pub open spec fn is_tartarus_node(name: Seq<char>) -> bool {
    sysfs_name_has_ids(name, USB_VID_RAZER, USB_PID_TARTARUS_V2)
        || sysfs_name_has_ids(name, USB_VID_RAZER, USB_PID_TARTARUS_PRO)
}

/// The first node whose name holds a Tartarus's ids.
pub open spec fn first_tartarus_node(names: Seq<Seq<char>>) -> Option<int>
    decreases names.len(),
{
    if names.len() == 0 {
        None
    } else if is_tartarus_node(names[0]) {
        Some(0)
    } else {
        match first_tartarus_node(names.drop_first()) {
            Some(i) => Some(i + 1),
            None => None,
        }
    }
}

/// Which driver node to write: with the ids known, the first whose name
/// holds them; with none known, the first Tartarus node, else the first
/// node listed.
pub open spec fn pick_sysfs(names: Seq<Seq<char>>, vid: Option<u16>, pid: Option<u16>) -> Option<int> {
    match (vid, pid) {
        (Some(v), Some(p)) => first_with_ids(names, v, p),
        _ => match first_tartarus_node(names) {
            Some(i) => Some(i),
            None => if names.len() > 0 { Some(0) } else { None },
        },
    }
}

pub open spec fn name_texts(v: Seq<String>) -> Seq<Seq<char>> {
    v.map_values(|s: String| s@)
}

pub open spec fn shift(r: Option<int>, by: int) -> Option<int> {
    match r {
        Some(k) => Some(k + by),
        None => None,
    }
}

fn first_with_ids_exec(names: &[String], vid: u16, pid: u16) -> (r: Option<usize>)
    ensures
        match first_with_ids(name_texts(names@), vid, pid) {
            Some(i) => r == Some(i as usize),
            None => r is None,
        },
{
    let ghost all = name_texts(names@);
    let mut i: usize = 0;
    assert(all.skip(0) =~= all);
    while i < names.len()
        invariant
            i <= names.len(),
            all == name_texts(names@),
            first_with_ids(all, vid, pid) == shift(first_with_ids(all.skip(i as int), vid, pid), i as int),
        decreases names.len() - i,
    {
        assert(all.skip(i as int)[0] == names@[i as int]@);
        assert(all.skip(i as int).drop_first() =~= all.skip(i + 1));
        if sysfs_name_matches(names[i].as_str(), vid, pid) {
            return Some(i);
        }
        i += 1;
    }
    None
}

fn first_tartarus_exec(names: &[String]) -> (r: Option<usize>)
    ensures
        match first_tartarus_node(name_texts(names@)) {
            Some(i) => r == Some(i as usize),
            None => r is None,
        },
{
    let ghost all = name_texts(names@);
    let mut i: usize = 0;
    assert(all.skip(0) =~= all);
    while i < names.len()
        invariant
            i <= names.len(),
            all == name_texts(names@),
            first_tartarus_node(all) == shift(first_tartarus_node(all.skip(i as int)), i as int),
        decreases names.len() - i,
    {
        assert(all.skip(i as int)[0] == names@[i as int]@);
        assert(all.skip(i as int).drop_first() =~= all.skip(i + 1));
        if sysfs_name_matches(names[i].as_str(), USB_VID_RAZER, USB_PID_TARTARUS_V2)
            || sysfs_name_matches(names[i].as_str(), USB_VID_RAZER, USB_PID_TARTARUS_PRO) {
            return Some(i);
        }
        i += 1;
    }
    None
}

/// The index of the driver node to write among nodes that have a
/// brightness file, listed in directory order.
pub fn choose_sysfs_node(names: &[String], vid: Option<u16>, pid: Option<u16>) -> (r: Option<usize>)
    ensures
        match pick_sysfs(name_texts(names@), vid, pid) {
            Some(i) => r == Some(i as usize),
            None => r is None,
        },
{
    match (vid, pid) {
        (Some(v), Some(p)) => first_with_ids_exec(names, v, p),
        _ => match first_tartarus_exec(names) {
            Some(i) => Some(i),
            None => if names.len() > 0 { Some(0) } else { None },
        },
    }
}

/// The driver file an effect is written to.
pub open spec fn sysfs_effect_file(effect: LightingEffect) -> Seq<char> {
    match effect {
        LightingEffect::Off => "matrix_effect_none"@,
        LightingEffect::Static => "matrix_effect_static"@,
        LightingEffect::Wave => "matrix_effect_wave"@,
        LightingEffect::Spectrum => "matrix_effect_spectrum"@,
        LightingEffect::Breath => "matrix_effect_breath"@,
        LightingEffect::Reactive => "matrix_effect_reactive"@,
        LightingEffect::Starlight => "matrix_effect_starlight"@,
    }
}

pub fn sysfs_effect_file_name(effect: LightingEffect) -> (s: &'static str)
    ensures s@ == sysfs_effect_file(effect),
{
    match effect {
        LightingEffect::Off => "matrix_effect_none",
        LightingEffect::Static => "matrix_effect_static",
        LightingEffect::Wave => "matrix_effect_wave",
        LightingEffect::Spectrum => "matrix_effect_spectrum",
        LightingEffect::Breath => "matrix_effect_breath",
        LightingEffect::Reactive => "matrix_effect_reactive",
        LightingEffect::Starlight => "matrix_effect_starlight",
    }
}

pub open spec fn effect_rgb(l: Lighting) -> [u8; 3] {
    match l.color {
        Some(c) => c,
        None => FALLBACK_RGB,
    }
}

/// The ASCII digits of a number, as bytes.
pub open spec fn decimal_bytes(n: nat) -> Seq<u8> {
    decimal(n).map_values(|c: char| c as u8)
}

/// The bytes written to an effect's file: `1` to switch it on, the colour
/// for the colour effects, the wave direction in ASCII for the wave, and
/// the speed before the colour for the reactive and starlight effects.
pub open spec fn sysfs_effect_bytes(l: Lighting) -> Seq<u8> {
    let rgb = effect_rgb(l);
    match l.effect {
        LightingEffect::Off | LightingEffect::Spectrum => seq![49u8],
        LightingEffect::Static | LightingEffect::Breath => seq![rgb[0], rgb[1], rgb[2]],
        LightingEffect::Wave => decimal_bytes(1),
        LightingEffect::Reactive | LightingEffect::Starlight => seq![EFFECT_SPEED, rgb[0], rgb[1], rgb[2]],
    }
}

pub fn sysfs_effect_payload(lighting: &Lighting) -> (b: Vec<u8>)
    ensures b@ == sysfs_effect_bytes(*lighting),
{
    let rgb = match lighting.color {
        Some(c) => c,
        None => FALLBACK_RGB,
    };
    let mut b: Vec<u8> = Vec::new();
    match lighting.effect {
        LightingEffect::Off | LightingEffect::Spectrum => {
            b.push(49u8);
        },
        LightingEffect::Static | LightingEffect::Breath => {
            b.push(rgb[0]);
            b.push(rgb[1]);
            b.push(rgb[2]);
        },
        LightingEffect::Wave => {
            let w = wave_sysfs_value();
            b.push(48u8 + w);
            assert(decimal(1) =~= seq!['1']) by {
                reveal_with_fuel(decimal, 2);
            }
        },
        LightingEffect::Reactive | LightingEffect::Starlight => {
            b.push(EFFECT_SPEED);
            b.push(rgb[0]);
            b.push(rgb[1]);
            b.push(rgb[2]);
        },
    }
    assert(b@ =~= sysfs_effect_bytes(*lighting));
    b
}

/// The bytes written to the brightness file: the driver's 0–255 value in
/// ASCII digits.
pub fn sysfs_brightness_payload(brightness: u8) -> (b: Vec<u8>)
    ensures b@ == decimal_bytes(razer_brightness(brightness) as nat),
{
    let v = brightness_to_razer(brightness);
    let mut digits: Vec<char> = Vec::new();
    push_decimal(&mut digits, v as u64);
    let mut b: Vec<u8> = Vec::new();
    let mut i: usize = 0;
    while i < digits.len()
        invariant
            i <= digits.len(),
            digits@ == decimal(v as nat),
            b@ == digits@.take(i as int).map_values(|c: char| c as u8),
        decreases digits.len() - i,
    {
        let c = digits[i];
        proof { crate::text::lemma_decimal_digits(v as nat); }
        assert(c == digits@[i as int]);
        b.push(c as u8);
        i += 1;
        assert(b@ =~= digits@.take(i as int).map_values(|c: char| c as u8));
    }
    assert(digits@.take(digits.len() as int) =~= digits@);
    b
}

/// The OpenRazer bus call for an effect.
pub open spec fn dbus_effect_method(effect: LightingEffect) -> Seq<char> {
    match effect {
        LightingEffect::Off => "setNone"@,
        LightingEffect::Static => "setStatic"@,
        LightingEffect::Wave => "setWave"@,
        LightingEffect::Spectrum => "setSpectrum"@,
        LightingEffect::Breath => "setBreathSingle"@,
        LightingEffect::Reactive => "setReactive"@,
        LightingEffect::Starlight => "setStarlightSingle"@,
    }
}

pub fn dbus_effect_method_name(effect: LightingEffect) -> (s: &'static str)
    ensures s@ == dbus_effect_method(effect),
{
    match effect {
        LightingEffect::Off => "setNone",
        LightingEffect::Static => "setStatic",
        LightingEffect::Wave => "setWave",
        LightingEffect::Spectrum => "setSpectrum",
        LightingEffect::Breath => "setBreathSingle",
        LightingEffect::Reactive => "setReactive",
        LightingEffect::Starlight => "setStarlightSingle",
    }
}

/// The bytes the bus call takes: nothing, the colour, the wave direction,
/// or the colour and the speed.
pub open spec fn dbus_effect_bytes(l: Lighting) -> Seq<u8> {
    let rgb = effect_rgb(l);
    match l.effect {
        LightingEffect::Off | LightingEffect::Spectrum => Seq::empty(),
        LightingEffect::Static | LightingEffect::Breath => seq![rgb[0], rgb[1], rgb[2]],
        LightingEffect::Wave => seq![1u8],
        LightingEffect::Reactive | LightingEffect::Starlight => seq![rgb[0], rgb[1], rgb[2], EFFECT_SPEED],
    }
}

pub fn dbus_effect_args(lighting: &Lighting) -> (b: Vec<u8>)
    ensures b@ == dbus_effect_bytes(*lighting),
{
    let rgb = match lighting.color {
        Some(c) => c,
        None => FALLBACK_RGB,
    };
    let mut b: Vec<u8> = Vec::new();
    match lighting.effect {
        LightingEffect::Off | LightingEffect::Spectrum => {},
        LightingEffect::Static | LightingEffect::Breath => {
            b.push(rgb[0]);
            b.push(rgb[1]);
            b.push(rgb[2]);
        },
        LightingEffect::Wave => {
            b.push(wave_sysfs_value());
        },
        LightingEffect::Reactive | LightingEffect::Starlight => {
            b.push(rgb[0]);
            b.push(rgb[1]);
            b.push(rgb[2]);
            b.push(EFFECT_SPEED);
        },
    }
    assert(b@ =~= dbus_effect_bytes(*lighting));
    b
}

/// The colour effects go out in red, green, blue order, on the bus as in
/// the driver's file: for `Static` and `Breath` the bus call takes exactly
/// the profile's colour (the fallback colour when it has none), the same
/// three bytes the effect file is written; for `Reactive` and
/// `Starlight` the call takes that colour first and the file takes it
/// after the speed.
pub proof fn lemma_colour_effects_send_red_green_blue(l: Lighting)
    ensures ({
        let c = match l.color { Some(c) => c, None => FALLBACK_RGB };
        &&& (l.effect == LightingEffect::Static || l.effect == LightingEffect::Breath) ==> {
            &&& dbus_effect_bytes(l) == seq![c[0], c[1], c[2]]
            &&& dbus_effect_bytes(l) == sysfs_effect_bytes(l)
        }
        &&& (l.effect == LightingEffect::Reactive || l.effect == LightingEffect::Starlight) ==> {
            &&& dbus_effect_bytes(l).subrange(0, 3) == seq![c[0], c[1], c[2]]
            &&& sysfs_effect_bytes(l).subrange(1, 4) == seq![c[0], c[1], c[2]]
        }
    }),
{
    let c = match l.color { Some(c) => c, None => FALLBACK_RGB };
    if l.effect == LightingEffect::Reactive || l.effect == LightingEffect::Starlight {
        assert(dbus_effect_bytes(l).subrange(0, 3) =~= seq![c[0], c[1], c[2]]);
        assert(sysfs_effect_bytes(l).subrange(1, 4) =~= seq![c[0], c[1], c[2]]);
    }
}

} // verus!
