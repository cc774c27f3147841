//! Linux input codes: what the keypad sends, and what the virtual
//! keyboard and mouse are told to send.

use vstd::prelude::*;
use crate::types::{key_index, token_at, KeyId, KeyToken, Modifier, MouseButton};

verus! {

pub const EV_KEY: u16 = 1;
pub const EV_REL: u16 = 2;
pub const EV_ABS: u16 = 3;

pub const REL_WHEEL: u16 = 8;

pub const ABS_X: u16 = 0;
pub const ABS_Y: u16 = 1;
pub const ABS_HAT0X: u16 = 16;
pub const ABS_HAT0Y: u16 = 17;

pub const ANALOG_AXIS_CENTER: i32 = 128;
pub const ANALOG_AXIS_MAX: i32 = 255;

pub const KEY_F24: u16 = 194;
pub const KEY_LEFTCTRL: u16 = 29;
pub const KEY_LEFTSHIFT: u16 = 42;
pub const KEY_LEFTALT: u16 = 56;
pub const KEY_LEFTMETA: u16 = 125;
pub const KEY_RIGHTCTRL: u16 = 97;
pub const KEY_RIGHTSHIFT: u16 = 54;
pub const KEY_RIGHTALT: u16 = 100;
pub const KEY_RIGHTMETA: u16 = 126;

pub const BTN_LEFT: u16 = 272;
pub const BTN_RIGHT: u16 = 273;
pub const BTN_MIDDLE: u16 = 274;
pub const BTN_SIDE: u16 = 275;
pub const BTN_EXTRA: u16 = 276;

/// The keypad's own codes: every grid key, the wheel and the mode key,
/// with the event type each arrives as. The thumb pad and the analog
/// stick arrive as absolute axes and are decoded separately.
pub open spec fn keypad_table() -> Seq<(KeyId, u16, u16)> {
    seq![
        (KeyId::Kp01, EV_KEY, 2),
        (KeyId::Kp02, EV_KEY, 3),
        (KeyId::Kp03, EV_KEY, 4),
        (KeyId::Kp04, EV_KEY, 5),
        (KeyId::Kp05, EV_KEY, 6),
        (KeyId::Kp06, EV_KEY, 7),
        (KeyId::Kp07, EV_KEY, 8),
        (KeyId::Kp08, EV_KEY, 9),
        (KeyId::Kp09, EV_KEY, 10),
        (KeyId::Kp10, EV_KEY, 11),
        (KeyId::Kp11, EV_KEY, 16),
        (KeyId::Kp12, EV_KEY, 17),
        (KeyId::Kp13, EV_KEY, 18),
        (KeyId::Kp14, EV_KEY, 19),
        (KeyId::Kp15, EV_KEY, 20),
        (KeyId::Kp16, EV_KEY, 21),
        (KeyId::Kp17, EV_KEY, 22),
        (KeyId::Kp18, EV_KEY, 23),
        (KeyId::Kp19, EV_KEY, 24),
        (KeyId::Kp20, EV_KEY, 25),
        (KeyId::WheelUp, EV_REL, REL_WHEEL),
        (KeyId::WheelDown, EV_REL, REL_WHEEL),
        (KeyId::WheelClick, EV_KEY, BTN_MIDDLE),
        (KeyId::Mode, EV_KEY, KEY_F24)
    ]
}

/// The value that marks a press for a key: `1` for keys, `+1` for the
/// wheel turning up and `-1` for the wheel turning down.
pub open spec fn qualifier_for(id: KeyId) -> i32 {
    match id {
        KeyId::WheelUp => 1i32,
        KeyId::WheelDown => -1i32,
        _ => 1i32,
    }
}

/// The first table entry that matches an input tuple.
pub open spec fn table_lookup(t: Seq<(KeyId, u16, u16)>, ev_type: u16, code: u16, qualifier: i32) -> Option<KeyId>
    decreases t.len(),
{
    if t.len() == 0 {
        None
    } else if t[0].1 == ev_type && t[0].2 == code && qualifier_for(t[0].0) == qualifier {
        Some(t[0].0)
    } else {
        table_lookup(t.drop_first(), ev_type, code, qualifier)
    }
}

#[derive(Debug, Clone, Copy, PartialEq, Eq)]
pub struct EvdevTuple {
    pub ev_type: u16,
    pub code: u16,
    pub qualifier: i32,
}

/// Which physical key an input tuple comes from.
#[derive(Debug)]
pub struct KeyMap {
    entries: Vec<(KeyId, u16, u16)>,
}

impl View for KeyMap {
    type V = Seq<(KeyId, u16, u16)>;

    closed spec fn view(&self) -> Seq<(KeyId, u16, u16)> {
        self.entries@
    }
}

fn keypad_keys() -> (r: Vec<(KeyId, u16, u16)>)
    ensures r@ == keypad_table(),
{
    let mut r: Vec<(KeyId, u16, u16)> = Vec::new();
    r.push((KeyId::Kp01, EV_KEY, 2));
    r.push((KeyId::Kp02, EV_KEY, 3));
    r.push((KeyId::Kp03, EV_KEY, 4));
    r.push((KeyId::Kp04, EV_KEY, 5));
    r.push((KeyId::Kp05, EV_KEY, 6));
    r.push((KeyId::Kp06, EV_KEY, 7));
    r.push((KeyId::Kp07, EV_KEY, 8));
    r.push((KeyId::Kp08, EV_KEY, 9));
    r.push((KeyId::Kp09, EV_KEY, 10));
    r.push((KeyId::Kp10, EV_KEY, 11));
    r.push((KeyId::Kp11, EV_KEY, 16));
    r.push((KeyId::Kp12, EV_KEY, 17));
    r.push((KeyId::Kp13, EV_KEY, 18));
    r.push((KeyId::Kp14, EV_KEY, 19));
    r.push((KeyId::Kp15, EV_KEY, 20));
    r.push((KeyId::Kp16, EV_KEY, 21));
    r.push((KeyId::Kp17, EV_KEY, 22));
    r.push((KeyId::Kp18, EV_KEY, 23));
    r.push((KeyId::Kp19, EV_KEY, 24));
    r.push((KeyId::Kp20, EV_KEY, 25));
    r.push((KeyId::WheelUp, EV_REL, REL_WHEEL));
    r.push((KeyId::WheelDown, EV_REL, REL_WHEEL));
    r.push((KeyId::WheelClick, EV_KEY, BTN_MIDDLE));
    r.push((KeyId::Mode, EV_KEY, KEY_F24));
    assert(r@ =~= keypad_table());
    r
}

impl KeyMap {
    /// The Tartarus V2's map.
    pub fn v2() -> (m: KeyMap)
        ensures m@ == keypad_table(),
    {
        Self::from_table(keypad_keys())
    }

    /// The Tartarus Pro's map: the same grid, wheel and mode codes.
    pub fn pro() -> (m: KeyMap)
        ensures m@ == keypad_table(),
    {
        Self::from_table(keypad_keys())
    }

    fn from_table(table: Vec<(KeyId, u16, u16)>) -> (m: KeyMap)
        ensures m@ == table@,
    {
        KeyMap { entries: table }
    }

    pub fn get(&self, ev_type: u16, code: u16, qualifier: i32) -> (r: Option<KeyId>)
        ensures r == table_lookup(self@, ev_type, code, qualifier),
    {
        self.resolve(EvdevTuple { ev_type, code, qualifier })
    }

    pub fn resolve(&self, tuple: EvdevTuple) -> (r: Option<KeyId>)
        ensures r == table_lookup(self@, tuple.ev_type, tuple.code, tuple.qualifier),
    {
        let mut i: usize = 0;
        assert(self@.skip(0) =~= self@);
        while i < self.entries.len()
            invariant
                i <= self.entries.len(),
                table_lookup(self@, tuple.ev_type, tuple.code, tuple.qualifier)
                    == table_lookup(self@.skip(i as int), tuple.ev_type, tuple.code, tuple.qualifier),
            decreases self.entries.len() - i,
        {
            let (id, ev_type, code) = self.entries[i];
            assert(self@.skip(i as int)[0] == self@[i as int]);
            assert(self@.skip(i as int).drop_first() =~= self@.skip(i + 1));
            if ev_type == tuple.ev_type && code == tuple.code && qualifier(id) == tuple.qualifier {
                return Some(id);
            }
            i += 1;
        }
        None
    }

    /// Whether some input tuple maps to `id`.
    pub fn contains(&self, id: KeyId) -> (r: bool)
        ensures r == exists|i: int| 0 <= i < self@.len() && self@[i].0 == id,
    {
        let mut i: usize = 0;
        while i < self.entries.len()
            invariant
                i <= self.entries.len(),
                forall|j: int| 0 <= j < i ==> self@[j].0 != id,
            decreases self.entries.len() - i,
        {
            if self.entries[i].0 == id {
                return true;
            }
            i += 1;
        }
        false
    }
}

pub fn qualifier(id: KeyId) -> (q: i32)
    ensures q == qualifier_for(id),
{
    match id {
        KeyId::WheelUp => 1,
        KeyId::WheelDown => -1,
        _ => 1,
    }
}

/// The Linux key code each token sends.
pub open spec fn token_code(t: KeyToken) -> u16 {
    match t {
        KeyToken::A => 30,
        KeyToken::B => 48,
        KeyToken::C => 46,
        KeyToken::D => 32,
        KeyToken::E => 18,
        KeyToken::F => 33,
        KeyToken::G => 34,
        KeyToken::H => 35,
        KeyToken::I => 23,
        KeyToken::J => 36,
        KeyToken::K => 37,
        KeyToken::L => 38,
        KeyToken::M => 50,
        KeyToken::N => 49,
        KeyToken::O => 24,
        KeyToken::P => 25,
        KeyToken::Q => 16,
        KeyToken::R => 19,
        KeyToken::S => 31,
        KeyToken::T => 20,
        KeyToken::U => 22,
        KeyToken::V => 47,
        KeyToken::W => 17,
        KeyToken::X => 45,
        KeyToken::Y => 21,
        KeyToken::Z => 44,
        KeyToken::Num0 => 11,
        KeyToken::Num1 => 2,
        KeyToken::Num2 => 3,
        KeyToken::Num3 => 4,
        KeyToken::Num4 => 5,
        KeyToken::Num5 => 6,
        KeyToken::Num6 => 7,
        KeyToken::Num7 => 8,
        KeyToken::Num8 => 9,
        KeyToken::Num9 => 10,
        KeyToken::F1 => 59,
        KeyToken::F2 => 60,
        KeyToken::F3 => 61,
        KeyToken::F4 => 62,
        KeyToken::F5 => 63,
        KeyToken::F6 => 64,
        KeyToken::F7 => 65,
        KeyToken::F8 => 66,
        KeyToken::F9 => 67,
        KeyToken::F10 => 68,
        KeyToken::F11 => 87,
        KeyToken::F12 => 88,
        KeyToken::Escape => 1,
        KeyToken::Tab => 15,
        KeyToken::Backspace => 14,
        KeyToken::Enter => 28,
        KeyToken::Space => 57,
        KeyToken::Insert => 110,
        KeyToken::Delete => 111,
        KeyToken::Home => 102,
        KeyToken::End => 107,
        KeyToken::PageUp => 104,
        KeyToken::PageDown => 109,
        KeyToken::Up => 103,
        KeyToken::Down => 108,
        KeyToken::Left => 105,
        KeyToken::Right => 106,
        KeyToken::Minus => 12,
        KeyToken::Equal => 13,
        KeyToken::LeftBrace => 26,
        KeyToken::RightBracket => 27,
        KeyToken::Backslash => 43,
        KeyToken::Semicolon => 39,
        KeyToken::Apostrophe => 40,
        KeyToken::Grave => 41,
        KeyToken::Comma => 51,
        KeyToken::Dot => 52,
        KeyToken::Slash => 53,
        KeyToken::NumPad0 => 82,
        KeyToken::NumPad1 => 79,
        KeyToken::NumPad2 => 80,
        KeyToken::NumPad3 => 81,
        KeyToken::NumPad4 => 75,
        KeyToken::NumPad5 => 76,
        KeyToken::NumPad6 => 77,
        KeyToken::NumPad7 => 71,
        KeyToken::NumPad8 => 72,
        KeyToken::NumPad9 => 73,
        KeyToken::NumEnter => 96,
        KeyToken::NumPlus => 78,
        KeyToken::NumMinus => 74,
        KeyToken::NumSlash => 98,
        KeyToken::NumStar => 55,
        KeyToken::NumDot => 83,
        KeyToken::PrintScreen => 99,
        KeyToken::ScrollLock => 70,
        KeyToken::Pause => 119,
        KeyToken::CapsLock => 58,
        KeyToken::NumLock => 69,
        KeyToken::VolumeUp => 115,
        KeyToken::VolumeDown => 114,
        KeyToken::Mute => 113,
        KeyToken::LeftShift => 42,
        KeyToken::LeftCtrl => 29,
        KeyToken::LeftAlt => 56,
    }
}

pub fn token_to_evdev(token: KeyToken) -> (c: u16)
    ensures c == token_code(token),
{
    match token {
        KeyToken::A => 30,
        KeyToken::B => 48,
        KeyToken::C => 46,
        KeyToken::D => 32,
        KeyToken::E => 18,
        KeyToken::F => 33,
        KeyToken::G => 34,
        KeyToken::H => 35,
        KeyToken::I => 23,
        KeyToken::J => 36,
        KeyToken::K => 37,
        KeyToken::L => 38,
        KeyToken::M => 50,
        KeyToken::N => 49,
        KeyToken::O => 24,
        KeyToken::P => 25,
        KeyToken::Q => 16,
        KeyToken::R => 19,
        KeyToken::S => 31,
        KeyToken::T => 20,
        KeyToken::U => 22,
        KeyToken::V => 47,
        KeyToken::W => 17,
        KeyToken::X => 45,
        KeyToken::Y => 21,
        KeyToken::Z => 44,
        KeyToken::Num0 => 11,
        KeyToken::Num1 => 2,
        KeyToken::Num2 => 3,
        KeyToken::Num3 => 4,
        KeyToken::Num4 => 5,
        KeyToken::Num5 => 6,
        KeyToken::Num6 => 7,
        KeyToken::Num7 => 8,
        KeyToken::Num8 => 9,
        KeyToken::Num9 => 10,
        KeyToken::F1 => 59,
        KeyToken::F2 => 60,
        KeyToken::F3 => 61,
        KeyToken::F4 => 62,
        KeyToken::F5 => 63,
        KeyToken::F6 => 64,
        KeyToken::F7 => 65,
        KeyToken::F8 => 66,
        KeyToken::F9 => 67,
        KeyToken::F10 => 68,
        KeyToken::F11 => 87,
        KeyToken::F12 => 88,
        KeyToken::Escape => 1,
        KeyToken::Tab => 15,
        KeyToken::Backspace => 14,
        KeyToken::Enter => 28,
        KeyToken::Space => 57,
        KeyToken::Insert => 110,
        KeyToken::Delete => 111,
        KeyToken::Home => 102,
        KeyToken::End => 107,
        KeyToken::PageUp => 104,
        KeyToken::PageDown => 109,
        KeyToken::Up => 103,
        KeyToken::Down => 108,
        KeyToken::Left => 105,
        KeyToken::Right => 106,
        KeyToken::Minus => 12,
        KeyToken::Equal => 13,
        KeyToken::LeftBrace => 26,
        KeyToken::RightBracket => 27,
        KeyToken::Backslash => 43,
        KeyToken::Semicolon => 39,
        KeyToken::Apostrophe => 40,
        KeyToken::Grave => 41,
        KeyToken::Comma => 51,
        KeyToken::Dot => 52,
        KeyToken::Slash => 53,
        KeyToken::NumPad0 => 82,
        KeyToken::NumPad1 => 79,
        KeyToken::NumPad2 => 80,
        KeyToken::NumPad3 => 81,
        KeyToken::NumPad4 => 75,
        KeyToken::NumPad5 => 76,
        KeyToken::NumPad6 => 77,
        KeyToken::NumPad7 => 71,
        KeyToken::NumPad8 => 72,
        KeyToken::NumPad9 => 73,
        KeyToken::NumEnter => 96,
        KeyToken::NumPlus => 78,
        KeyToken::NumMinus => 74,
        KeyToken::NumSlash => 98,
        KeyToken::NumStar => 55,
        KeyToken::NumDot => 83,
        KeyToken::PrintScreen => 99,
        KeyToken::ScrollLock => 70,
        KeyToken::Pause => 119,
        KeyToken::CapsLock => 58,
        KeyToken::NumLock => 69,
        KeyToken::VolumeUp => 115,
        KeyToken::VolumeDown => 114,
        KeyToken::Mute => 113,
        KeyToken::LeftShift => 42,
        KeyToken::LeftCtrl => 29,
        KeyToken::LeftAlt => 56,
    }
}

/// The Linux key code each modifier sends.
pub open spec fn modifier_code(m: Modifier) -> u16 {
    match m {
        Modifier::Ctrl => KEY_LEFTCTRL,
        Modifier::Shift => KEY_LEFTSHIFT,
        Modifier::Alt => KEY_LEFTALT,
        Modifier::Super => KEY_LEFTMETA,
        Modifier::CtrlR => KEY_RIGHTCTRL,
        Modifier::ShiftR => KEY_RIGHTSHIFT,
        Modifier::AltR => KEY_RIGHTALT,
        Modifier::SuperR => KEY_RIGHTMETA,
    }
}

pub fn modifier_to_evdev(modifier: Modifier) -> (c: u16)
    ensures c == modifier_code(modifier),
{
    match modifier {
        Modifier::Ctrl => KEY_LEFTCTRL,
        Modifier::Shift => KEY_LEFTSHIFT,
        Modifier::Alt => KEY_LEFTALT,
        Modifier::Super => KEY_LEFTMETA,
        Modifier::CtrlR => KEY_RIGHTCTRL,
        Modifier::ShiftR => KEY_RIGHTSHIFT,
        Modifier::AltR => KEY_RIGHTALT,
        Modifier::SuperR => KEY_RIGHTMETA,
    }
}

/// The Linux button code each mouse button sends.
pub open spec fn button_code(b: MouseButton) -> u16 {
    match b {
        MouseButton::Left => BTN_LEFT,
        MouseButton::Right => BTN_RIGHT,
        MouseButton::Middle => BTN_MIDDLE,
        MouseButton::Back => BTN_SIDE,
        MouseButton::Forward => BTN_EXTRA,
    }
}

pub fn mouse_button_to_evdev(button: MouseButton) -> (c: u16)
    ensures c == button_code(button),
{
    match button {
        MouseButton::Left => BTN_LEFT,
        MouseButton::Right => BTN_RIGHT,
        MouseButton::Middle => BTN_MIDDLE,
        MouseButton::Back => BTN_SIDE,
        MouseButton::Forward => BTN_EXTRA,
    }
}

pub open spec fn sign(v: i32) -> int {
    if v > 0 { 1 } else if v < 0 { -1 } else { 0 }
}

/// The thumb-pad direction a hat position points at: x grows to the east,
/// y grows to the south; the centre is no direction.
pub open spec fn hat_direction(hat_x: i32, hat_y: i32) -> Option<KeyId> {
    let (x, y) = (sign(hat_x), sign(hat_y));
    if x == 0 && y == -1 {
        Some(KeyId::ThumbN)
    } else if x == 1 && y == -1 {
        Some(KeyId::ThumbNe)
    } else if x == 1 && y == 0 {
        Some(KeyId::ThumbE)
    } else if x == 1 && y == 1 {
        Some(KeyId::ThumbSe)
    } else if x == 0 && y == 1 {
        Some(KeyId::ThumbS)
    } else if x == -1 && y == 1 {
        Some(KeyId::ThumbSw)
    } else if x == -1 && y == 0 {
        Some(KeyId::ThumbW)
    } else if x == -1 && y == -1 {
        Some(KeyId::ThumbNw)
    } else {
        None
    }
}

fn signum(v: i32) -> (s: i32)
    ensures s == sign(v),
{
    if v > 0 { 1 } else if v < 0 { -1 } else { 0 }
}

pub fn decode_hat(hat_x: i32, hat_y: i32) -> (r: Option<KeyId>)
    ensures r == hat_direction(hat_x, hat_y),
{
    let x = signum(hat_x);
    let y = signum(hat_y);
    if x == 0 && y == -1 {
        Some(KeyId::ThumbN)
    } else if x == 1 && y == -1 {
        Some(KeyId::ThumbNe)
    } else if x == 1 && y == 0 {
        Some(KeyId::ThumbE)
    } else if x == 1 && y == 1 {
        Some(KeyId::ThumbSe)
    } else if x == 0 && y == 1 {
        Some(KeyId::ThumbS)
    } else if x == -1 && y == 1 {
        Some(KeyId::ThumbSw)
    } else if x == -1 && y == 0 {
        Some(KeyId::ThumbW)
    } else if x == -1 && y == -1 {
        Some(KeyId::ThumbNw)
    } else {
        None
    }
}

/// Each direction the hat can point at is exactly one thumb key, and
/// every thumb key is reachable.
pub proof fn lemma_hat_reaches_every_thumb_key(k: KeyId)
    requires k.spec_is_thumb(),
    ensures exists|x: i32, y: i32| hat_direction(x, y) == Some(k),
{
    match k {
        KeyId::ThumbN => { assert(hat_direction(0i32, -1i32) == Some(k)); }
        KeyId::ThumbNe => { assert(hat_direction(1i32, -1i32) == Some(k)); }
        KeyId::ThumbE => { assert(hat_direction(1i32, 0i32) == Some(k)); }
        KeyId::ThumbSe => { assert(hat_direction(1i32, 1i32) == Some(k)); }
        KeyId::ThumbS => { assert(hat_direction(0i32, 1i32) == Some(k)); }
        KeyId::ThumbSw => { assert(hat_direction(-1i32, 1i32) == Some(k)); }
        KeyId::ThumbW => { assert(hat_direction(-1i32, 0i32) == Some(k)); }
        KeyId::ThumbNw => { assert(hat_direction(-1i32, -1i32) == Some(k)); }
        _ => {}
    }
}

/// The key code a bare modifier key sends is the code its modifier sends.
pub proof fn lemma_bare_modifier_codes()
    ensures
        token_code(KeyToken::LeftShift) == modifier_code(Modifier::Shift),
        token_code(KeyToken::LeftCtrl) == modifier_code(Modifier::Ctrl),
        token_code(KeyToken::LeftAlt) == modifier_code(Modifier::Alt),
{
}

// ---------------------------------------------------------------------
// The kernel's key codes.

/// The key each code names in Linux's `input-event-codes.h`, for the
/// keys a binding can send; other codes name none of them.
pub open spec fn kernel_key(code: u16) -> Option<KeyToken> {
    match code {
        1 => Some(KeyToken::Escape),  // KEY_ESC
        2 => Some(KeyToken::Num1),  // KEY_1
        3 => Some(KeyToken::Num2),  // KEY_2
        4 => Some(KeyToken::Num3),  // KEY_3
        5 => Some(KeyToken::Num4),  // KEY_4
        6 => Some(KeyToken::Num5),  // KEY_5
        7 => Some(KeyToken::Num6),  // KEY_6
        8 => Some(KeyToken::Num7),  // KEY_7
        9 => Some(KeyToken::Num8),  // KEY_8
        10 => Some(KeyToken::Num9),  // KEY_9
        11 => Some(KeyToken::Num0),  // KEY_0
        12 => Some(KeyToken::Minus),  // KEY_MINUS
        13 => Some(KeyToken::Equal),  // KEY_EQUAL
        14 => Some(KeyToken::Backspace),  // KEY_BACKSPACE
        15 => Some(KeyToken::Tab),  // KEY_TAB
        16 => Some(KeyToken::Q),  // KEY_Q
        17 => Some(KeyToken::W),  // KEY_W
        18 => Some(KeyToken::E),  // KEY_E
        19 => Some(KeyToken::R),  // KEY_R
        20 => Some(KeyToken::T),  // KEY_T
        21 => Some(KeyToken::Y),  // KEY_Y
        22 => Some(KeyToken::U),  // KEY_U
        23 => Some(KeyToken::I),  // KEY_I
        24 => Some(KeyToken::O),  // KEY_O
        25 => Some(KeyToken::P),  // KEY_P
        26 => Some(KeyToken::LeftBrace),  // KEY_LEFTBRACE
        27 => Some(KeyToken::RightBracket),  // KEY_RIGHTBRACE
        28 => Some(KeyToken::Enter),  // KEY_ENTER
        29 => Some(KeyToken::LeftCtrl),  // KEY_LEFTCTRL
        30 => Some(KeyToken::A),  // KEY_A
        31 => Some(KeyToken::S),  // KEY_S
        32 => Some(KeyToken::D),  // KEY_D
        33 => Some(KeyToken::F),  // KEY_F
        34 => Some(KeyToken::G),  // KEY_G
        35 => Some(KeyToken::H),  // KEY_H
        36 => Some(KeyToken::J),  // KEY_J
        37 => Some(KeyToken::K),  // KEY_K
        38 => Some(KeyToken::L),  // KEY_L
        39 => Some(KeyToken::Semicolon),  // KEY_SEMICOLON
        40 => Some(KeyToken::Apostrophe),  // KEY_APOSTROPHE
        41 => Some(KeyToken::Grave),  // KEY_GRAVE
        42 => Some(KeyToken::LeftShift),  // KEY_LEFTSHIFT
        43 => Some(KeyToken::Backslash),  // KEY_BACKSLASH
        44 => Some(KeyToken::Z),  // KEY_Z
        45 => Some(KeyToken::X),  // KEY_X
        46 => Some(KeyToken::C),  // KEY_C
        47 => Some(KeyToken::V),  // KEY_V
        48 => Some(KeyToken::B),  // KEY_B
        49 => Some(KeyToken::N),  // KEY_N
        50 => Some(KeyToken::M),  // KEY_M
        51 => Some(KeyToken::Comma),  // KEY_COMMA
        52 => Some(KeyToken::Dot),  // KEY_DOT
        53 => Some(KeyToken::Slash),  // KEY_SLASH
        55 => Some(KeyToken::NumStar),  // KEY_KPASTERISK
        56 => Some(KeyToken::LeftAlt),  // KEY_LEFTALT
        57 => Some(KeyToken::Space),  // KEY_SPACE
        58 => Some(KeyToken::CapsLock),  // KEY_CAPSLOCK
        59 => Some(KeyToken::F1),  // KEY_F1
        60 => Some(KeyToken::F2),  // KEY_F2
        61 => Some(KeyToken::F3),  // KEY_F3
        62 => Some(KeyToken::F4),  // KEY_F4
        63 => Some(KeyToken::F5),  // KEY_F5
        64 => Some(KeyToken::F6),  // KEY_F6
        65 => Some(KeyToken::F7),  // KEY_F7
        66 => Some(KeyToken::F8),  // KEY_F8
        67 => Some(KeyToken::F9),  // KEY_F9
        68 => Some(KeyToken::F10),  // KEY_F10
        69 => Some(KeyToken::NumLock),  // KEY_NUMLOCK
        70 => Some(KeyToken::ScrollLock),  // KEY_SCROLLLOCK
        71 => Some(KeyToken::NumPad7),  // KEY_KP7
        72 => Some(KeyToken::NumPad8),  // KEY_KP8
        73 => Some(KeyToken::NumPad9),  // KEY_KP9
        74 => Some(KeyToken::NumMinus),  // KEY_KPMINUS
        75 => Some(KeyToken::NumPad4),  // KEY_KP4
        76 => Some(KeyToken::NumPad5),  // KEY_KP5
        77 => Some(KeyToken::NumPad6),  // KEY_KP6
        78 => Some(KeyToken::NumPlus),  // KEY_KPPLUS
        79 => Some(KeyToken::NumPad1),  // KEY_KP1
        80 => Some(KeyToken::NumPad2),  // KEY_KP2
        81 => Some(KeyToken::NumPad3),  // KEY_KP3
        82 => Some(KeyToken::NumPad0),  // KEY_KP0
        83 => Some(KeyToken::NumDot),  // KEY_KPDOT
        87 => Some(KeyToken::F11),  // KEY_F11
        88 => Some(KeyToken::F12),  // KEY_F12
        96 => Some(KeyToken::NumEnter),  // KEY_KPENTER
        98 => Some(KeyToken::NumSlash),  // KEY_KPSLASH
        99 => Some(KeyToken::PrintScreen),  // KEY_SYSRQ
        102 => Some(KeyToken::Home),  // KEY_HOME
        103 => Some(KeyToken::Up),  // KEY_UP
        104 => Some(KeyToken::PageUp),  // KEY_PAGEUP
        105 => Some(KeyToken::Left),  // KEY_LEFT
        106 => Some(KeyToken::Right),  // KEY_RIGHT
        107 => Some(KeyToken::End),  // KEY_END
        108 => Some(KeyToken::Down),  // KEY_DOWN
        109 => Some(KeyToken::PageDown),  // KEY_PAGEDOWN
        110 => Some(KeyToken::Insert),  // KEY_INSERT
        111 => Some(KeyToken::Delete),  // KEY_DELETE
        113 => Some(KeyToken::Mute),  // KEY_MUTE
        114 => Some(KeyToken::VolumeDown),  // KEY_VOLUMEDOWN
        115 => Some(KeyToken::VolumeUp),  // KEY_VOLUMEUP
        119 => Some(KeyToken::Pause),  // KEY_PAUSE
        _ => None,
    }
}

/// Every key a binding can send goes out under the code the kernel gives
/// that key: `M` as `KEY_M` (50), `N` as `KEY_N` (49), and so on. So a
/// bound key types what it names, and no two keys share a code.
pub proof fn lemma_token_codes_are_the_kernels(t: KeyToken)
    ensures kernel_key(token_code(t)) == Some(t),
{
    match t {
        KeyToken::A => {},
        KeyToken::B => {},
        KeyToken::C => {},
        KeyToken::D => {},
        KeyToken::E => {},
        KeyToken::F => {},
        KeyToken::G => {},
        KeyToken::H => {},
        KeyToken::I => {},
        KeyToken::J => {},
        KeyToken::K => {},
        KeyToken::L => {},
        KeyToken::M => {},
        KeyToken::N => {},
        KeyToken::O => {},
        KeyToken::P => {},
        KeyToken::Q => {},
        KeyToken::R => {},
        KeyToken::S => {},
        KeyToken::T => {},
        KeyToken::U => {},
        KeyToken::V => {},
        KeyToken::W => {},
        KeyToken::X => {},
        KeyToken::Y => {},
        KeyToken::Z => {},
        KeyToken::Num0 => {},
        KeyToken::Num1 => {},
        KeyToken::Num2 => {},
        KeyToken::Num3 => {},
        KeyToken::Num4 => {},
        KeyToken::Num5 => {},
        KeyToken::Num6 => {},
        KeyToken::Num7 => {},
        KeyToken::Num8 => {},
        KeyToken::Num9 => {},
        KeyToken::F1 => {},
        KeyToken::F2 => {},
        KeyToken::F3 => {},
        KeyToken::F4 => {},
        KeyToken::F5 => {},
        KeyToken::F6 => {},
        KeyToken::F7 => {},
        KeyToken::F8 => {},
        KeyToken::F9 => {},
        KeyToken::F10 => {},
        KeyToken::F11 => {},
        KeyToken::F12 => {},
        KeyToken::Escape => {},
        KeyToken::Tab => {},
        KeyToken::Backspace => {},
        KeyToken::Enter => {},
        KeyToken::Space => {},
        KeyToken::Insert => {},
        KeyToken::Delete => {},
        KeyToken::Home => {},
        KeyToken::End => {},
        KeyToken::PageUp => {},
        KeyToken::PageDown => {},
        KeyToken::Up => {},
        KeyToken::Down => {},
        KeyToken::Left => {},
        KeyToken::Right => {},
        KeyToken::Minus => {},
        KeyToken::Equal => {},
        KeyToken::LeftBrace => {},
        KeyToken::RightBracket => {},
        KeyToken::Backslash => {},
        KeyToken::Semicolon => {},
        KeyToken::Apostrophe => {},
        KeyToken::Grave => {},
        KeyToken::Comma => {},
        KeyToken::Dot => {},
        KeyToken::Slash => {},
        KeyToken::NumPad0 => {},
        KeyToken::NumPad1 => {},
        KeyToken::NumPad2 => {},
        KeyToken::NumPad3 => {},
        KeyToken::NumPad4 => {},
        KeyToken::NumPad5 => {},
        KeyToken::NumPad6 => {},
        KeyToken::NumPad7 => {},
        KeyToken::NumPad8 => {},
        KeyToken::NumPad9 => {},
        KeyToken::NumEnter => {},
        KeyToken::NumPlus => {},
        KeyToken::NumMinus => {},
        KeyToken::NumSlash => {},
        KeyToken::NumStar => {},
        KeyToken::NumDot => {},
        KeyToken::PrintScreen => {},
        KeyToken::ScrollLock => {},
        KeyToken::Pause => {},
        KeyToken::CapsLock => {},
        KeyToken::NumLock => {},
        KeyToken::VolumeUp => {},
        KeyToken::VolumeDown => {},
        KeyToken::Mute => {},
        KeyToken::LeftShift => {},
        KeyToken::LeftCtrl => {},
        KeyToken::LeftAlt => {},
    }
}

/// The letter at alphabet position `c - 'A'`.
pub open spec fn letter(c: char) -> KeyToken {
    token_at(c as int - 'A' as int)->0
}

/// The digit key `d`.
pub open spec fn digit(d: int) -> KeyToken {
    token_at(26 + d)->0
}

/// A PC keyboard's three letter rows, left to right.
pub open spec fn top_letter_row() -> Seq<char> {
    seq!['Q', 'W', 'E', 'R', 'T', 'Y', 'U', 'I', 'O', 'P']
}

pub open spec fn home_letter_row() -> Seq<char> {
    seq!['A', 'S', 'D', 'F', 'G', 'H', 'J', 'K', 'L']
}

pub open spec fn bottom_letter_row() -> Seq<char> {
    seq!['Z', 'X', 'C', 'V', 'B', 'N', 'M']
}

/// The letters' codes follow a PC keyboard's rows, left to right: `Q` to
/// `P` are 16 to 25, `A` to `L` are 30 to 38, `Z` to `M` are 44 to 50; the
/// digits `1` to `9` are 2 to 10 and `0` is 11.
pub proof fn lemma_letters_follow_the_keyboard_rows()
    ensures
        forall|i: int| 0 <= i < 10 ==> token_code(letter(#[trigger] top_letter_row()[i])) == 16 + i,
        forall|i: int| 0 <= i < 9 ==> token_code(letter(#[trigger] home_letter_row()[i])) == 30 + i,
        forall|i: int| 0 <= i < 7 ==> token_code(letter(#[trigger] bottom_letter_row()[i])) == 44 + i,
        forall|d: int| 1 <= d <= 9 ==> token_code(#[trigger] digit(d)) == 1 + d,
        token_code(KeyToken::Num0) == 11,
{
    assert forall|i: int| 0 <= i < 10 implies token_code(letter(#[trigger] top_letter_row()[i])) == 16 + i by {
        let r = top_letter_row();
        if i == 0 { assert(r[0] == 'Q'); } else if i == 1 { assert(r[1] == 'W'); } else if i == 2 { assert(r[2] == 'E'); }
        else if i == 3 { assert(r[3] == 'R'); } else if i == 4 { assert(r[4] == 'T'); } else if i == 5 { assert(r[5] == 'Y'); }
        else if i == 6 { assert(r[6] == 'U'); } else if i == 7 { assert(r[7] == 'I'); } else if i == 8 { assert(r[8] == 'O'); }
        else { assert(r[9] == 'P'); }
    }
    assert forall|i: int| 0 <= i < 9 implies token_code(letter(#[trigger] home_letter_row()[i])) == 30 + i by {
        let r = home_letter_row();
        if i == 0 { assert(r[0] == 'A'); } else if i == 1 { assert(r[1] == 'S'); } else if i == 2 { assert(r[2] == 'D'); }
        else if i == 3 { assert(r[3] == 'F'); } else if i == 4 { assert(r[4] == 'G'); } else if i == 5 { assert(r[5] == 'H'); }
        else if i == 6 { assert(r[6] == 'J'); } else if i == 7 { assert(r[7] == 'K'); } else { assert(r[8] == 'L'); }
    }
    assert forall|i: int| 0 <= i < 7 implies token_code(letter(#[trigger] bottom_letter_row()[i])) == 44 + i by {
        let r = bottom_letter_row();
        if i == 0 { assert(r[0] == 'Z'); } else if i == 1 { assert(r[1] == 'X'); } else if i == 2 { assert(r[2] == 'C'); }
        else if i == 3 { assert(r[3] == 'V'); } else if i == 4 { assert(r[4] == 'B'); } else if i == 5 { assert(r[5] == 'N'); }
        else { assert(r[6] == 'M'); }
    }
}

} // verus!
