use vstd::prelude::*;

verus! {

/// The two keypads the app drives.
#[derive(Debug, Clone, Copy, PartialEq, Eq, Structural)]
pub enum DeviceModel {
    V2,
    Pro,
}

/// Every physical control on the pad: 20 grid keys, the wheel, the mode
/// key, eight thumb-pad directions and four analog directions.
#[derive(Debug, Clone, Copy, PartialEq, Eq, PartialOrd, Ord, Hash, Structural)]
pub enum KeyId {
    Kp01,
    Kp02,
    Kp03,
    Kp04,
    Kp05,
    Kp06,
    Kp07,
    Kp08,
    Kp09,
    Kp10,
    Kp11,
    Kp12,
    Kp13,
    Kp14,
    Kp15,
    Kp16,
    Kp17,
    Kp18,
    Kp19,
    Kp20,
    WheelUp,
    WheelDown,
    WheelClick,
    Mode,
    ThumbN,
    ThumbNe,
    ThumbE,
    ThumbSe,
    ThumbS,
    ThumbSw,
    ThumbW,
    ThumbNw,
    AnalogUp,
    AnalogDown,
    AnalogLeft,
    AnalogRight,
}

/// The position of a key in declaration order, `0..36`.
pub open spec fn key_index(k: KeyId) -> int {
    match k {
        KeyId::Kp01 => 0,
        KeyId::Kp02 => 1,
        KeyId::Kp03 => 2,
        KeyId::Kp04 => 3,
        KeyId::Kp05 => 4,
        KeyId::Kp06 => 5,
        KeyId::Kp07 => 6,
        KeyId::Kp08 => 7,
        KeyId::Kp09 => 8,
        KeyId::Kp10 => 9,
        KeyId::Kp11 => 10,
        KeyId::Kp12 => 11,
        KeyId::Kp13 => 12,
        KeyId::Kp14 => 13,
        KeyId::Kp15 => 14,
        KeyId::Kp16 => 15,
        KeyId::Kp17 => 16,
        KeyId::Kp18 => 17,
        KeyId::Kp19 => 18,
        KeyId::Kp20 => 19,
        KeyId::WheelUp => 20,
        KeyId::WheelDown => 21,
        KeyId::WheelClick => 22,
        KeyId::Mode => 23,
        KeyId::ThumbN => 24,
        KeyId::ThumbNe => 25,
        KeyId::ThumbE => 26,
        KeyId::ThumbSe => 27,
        KeyId::ThumbS => 28,
        KeyId::ThumbSw => 29,
        KeyId::ThumbW => 30,
        KeyId::ThumbNw => 31,
        KeyId::AnalogUp => 32,
        KeyId::AnalogDown => 33,
        KeyId::AnalogLeft => 34,
        KeyId::AnalogRight => 35,
    }
}

/// The key at a declaration-order position.
pub open spec fn key_at(i: int) -> Option<KeyId> {
    if i == 0 { Some(KeyId::Kp01) } else if i == 1 { Some(KeyId::Kp02) } else if i == 2 { Some(KeyId::Kp03) } else if i == 3 { Some(KeyId::Kp04) } else if i == 4 { Some(KeyId::Kp05) } else if i == 5 { Some(KeyId::Kp06) } else if i == 6 { Some(KeyId::Kp07) } else if i == 7 { Some(KeyId::Kp08) } else if i == 8 { Some(KeyId::Kp09) } else if i == 9 { Some(KeyId::Kp10) } else if i == 10 { Some(KeyId::Kp11) } else if i == 11 { Some(KeyId::Kp12) } else if i == 12 { Some(KeyId::Kp13) } else if i == 13 { Some(KeyId::Kp14) } else if i == 14 { Some(KeyId::Kp15) } else if i == 15 { Some(KeyId::Kp16) } else if i == 16 { Some(KeyId::Kp17) } else if i == 17 { Some(KeyId::Kp18) } else if i == 18 { Some(KeyId::Kp19) } else if i == 19 { Some(KeyId::Kp20) } else if i == 20 { Some(KeyId::WheelUp) } else if i == 21 { Some(KeyId::WheelDown) } else if i == 22 { Some(KeyId::WheelClick) } else if i == 23 { Some(KeyId::Mode) } else if i == 24 { Some(KeyId::ThumbN) } else if i == 25 { Some(KeyId::ThumbNe) } else if i == 26 { Some(KeyId::ThumbE) } else if i == 27 { Some(KeyId::ThumbSe) } else if i == 28 { Some(KeyId::ThumbS) } else if i == 29 { Some(KeyId::ThumbSw) } else if i == 30 { Some(KeyId::ThumbW) } else if i == 31 { Some(KeyId::ThumbNw) } else if i == 32 { Some(KeyId::AnalogUp) } else if i == 33 { Some(KeyId::AnalogDown) } else if i == 34 { Some(KeyId::AnalogLeft) } else if i == 35 { Some(KeyId::AnalogRight) } else { None }
}

/// The name a key has in a profile file, for example `kp07` or `thumb_ne`.
pub open spec fn key_wire_name(k: KeyId) -> Seq<char> {
    match k {
        KeyId::Kp01 => "kp01"@,
        KeyId::Kp02 => "kp02"@,
        KeyId::Kp03 => "kp03"@,
        KeyId::Kp04 => "kp04"@,
        KeyId::Kp05 => "kp05"@,
        KeyId::Kp06 => "kp06"@,
        KeyId::Kp07 => "kp07"@,
        KeyId::Kp08 => "kp08"@,
        KeyId::Kp09 => "kp09"@,
        KeyId::Kp10 => "kp10"@,
        KeyId::Kp11 => "kp11"@,
        KeyId::Kp12 => "kp12"@,
        KeyId::Kp13 => "kp13"@,
        KeyId::Kp14 => "kp14"@,
        KeyId::Kp15 => "kp15"@,
        KeyId::Kp16 => "kp16"@,
        KeyId::Kp17 => "kp17"@,
        KeyId::Kp18 => "kp18"@,
        KeyId::Kp19 => "kp19"@,
        KeyId::Kp20 => "kp20"@,
        KeyId::WheelUp => "wheel_up"@,
        KeyId::WheelDown => "wheel_down"@,
        KeyId::WheelClick => "wheel_click"@,
        KeyId::Mode => "mode"@,
        KeyId::ThumbN => "thumb_n"@,
        KeyId::ThumbNe => "thumb_ne"@,
        KeyId::ThumbE => "thumb_e"@,
        KeyId::ThumbSe => "thumb_se"@,
        KeyId::ThumbS => "thumb_s"@,
        KeyId::ThumbSw => "thumb_sw"@,
        KeyId::ThumbW => "thumb_w"@,
        KeyId::ThumbNw => "thumb_nw"@,
        KeyId::AnalogUp => "analog_up"@,
        KeyId::AnalogDown => "analog_down"@,
        KeyId::AnalogLeft => "analog_left"@,
        KeyId::AnalogRight => "analog_right"@,
    }
}

pub const KEY_COUNT: usize = 36;

impl KeyId {
    /// Every physical key, in declaration order.
    pub const ALL: [KeyId; 36] = [
        KeyId::Kp01,
        KeyId::Kp02,
        KeyId::Kp03,
        KeyId::Kp04,
        KeyId::Kp05,
        KeyId::Kp06,
        KeyId::Kp07,
        KeyId::Kp08,
        KeyId::Kp09,
        KeyId::Kp10,
        KeyId::Kp11,
        KeyId::Kp12,
        KeyId::Kp13,
        KeyId::Kp14,
        KeyId::Kp15,
        KeyId::Kp16,
        KeyId::Kp17,
        KeyId::Kp18,
        KeyId::Kp19,
        KeyId::Kp20,
        KeyId::WheelUp,
        KeyId::WheelDown,
        KeyId::WheelClick,
        KeyId::Mode,
        KeyId::ThumbN,
        KeyId::ThumbNe,
        KeyId::ThumbE,
        KeyId::ThumbSe,
        KeyId::ThumbS,
        KeyId::ThumbSw,
        KeyId::ThumbW,
        KeyId::ThumbNw,
        KeyId::AnalogUp,
        KeyId::AnalogDown,
        KeyId::AnalogLeft,
        KeyId::AnalogRight,
    ];

    pub fn index(self) -> (i: usize)
        ensures i == key_index(self), i < KEY_COUNT,
    {
        match self {
            KeyId::Kp01 => 0,
            KeyId::Kp02 => 1,
            KeyId::Kp03 => 2,
            KeyId::Kp04 => 3,
            KeyId::Kp05 => 4,
            KeyId::Kp06 => 5,
            KeyId::Kp07 => 6,
            KeyId::Kp08 => 7,
            KeyId::Kp09 => 8,
            KeyId::Kp10 => 9,
            KeyId::Kp11 => 10,
            KeyId::Kp12 => 11,
            KeyId::Kp13 => 12,
            KeyId::Kp14 => 13,
            KeyId::Kp15 => 14,
            KeyId::Kp16 => 15,
            KeyId::Kp17 => 16,
            KeyId::Kp18 => 17,
            KeyId::Kp19 => 18,
            KeyId::Kp20 => 19,
            KeyId::WheelUp => 20,
            KeyId::WheelDown => 21,
            KeyId::WheelClick => 22,
            KeyId::Mode => 23,
            KeyId::ThumbN => 24,
            KeyId::ThumbNe => 25,
            KeyId::ThumbE => 26,
            KeyId::ThumbSe => 27,
            KeyId::ThumbS => 28,
            KeyId::ThumbSw => 29,
            KeyId::ThumbW => 30,
            KeyId::ThumbNw => 31,
            KeyId::AnalogUp => 32,
            KeyId::AnalogDown => 33,
            KeyId::AnalogLeft => 34,
            KeyId::AnalogRight => 35,
        }
    }

    pub fn from_index(i: usize) -> (k: Option<KeyId>)
        ensures k == key_at(i as int),
    {
        match i {
            0 => Some(KeyId::Kp01),
            1 => Some(KeyId::Kp02),
            2 => Some(KeyId::Kp03),
            3 => Some(KeyId::Kp04),
            4 => Some(KeyId::Kp05),
            5 => Some(KeyId::Kp06),
            6 => Some(KeyId::Kp07),
            7 => Some(KeyId::Kp08),
            8 => Some(KeyId::Kp09),
            9 => Some(KeyId::Kp10),
            10 => Some(KeyId::Kp11),
            11 => Some(KeyId::Kp12),
            12 => Some(KeyId::Kp13),
            13 => Some(KeyId::Kp14),
            14 => Some(KeyId::Kp15),
            15 => Some(KeyId::Kp16),
            16 => Some(KeyId::Kp17),
            17 => Some(KeyId::Kp18),
            18 => Some(KeyId::Kp19),
            19 => Some(KeyId::Kp20),
            20 => Some(KeyId::WheelUp),
            21 => Some(KeyId::WheelDown),
            22 => Some(KeyId::WheelClick),
            23 => Some(KeyId::Mode),
            24 => Some(KeyId::ThumbN),
            25 => Some(KeyId::ThumbNe),
            26 => Some(KeyId::ThumbE),
            27 => Some(KeyId::ThumbSe),
            28 => Some(KeyId::ThumbS),
            29 => Some(KeyId::ThumbSw),
            30 => Some(KeyId::ThumbW),
            31 => Some(KeyId::ThumbNw),
            32 => Some(KeyId::AnalogUp),
            33 => Some(KeyId::AnalogDown),
            34 => Some(KeyId::AnalogLeft),
            35 => Some(KeyId::AnalogRight),
            _ => None,
        }
    }

    /// The name this key has in a profile file.
    pub fn wire_name(self) -> (s: &'static str)
        ensures s@ == key_wire_name(self),
    {
        match self {
            KeyId::Kp01 => "kp01",
            KeyId::Kp02 => "kp02",
            KeyId::Kp03 => "kp03",
            KeyId::Kp04 => "kp04",
            KeyId::Kp05 => "kp05",
            KeyId::Kp06 => "kp06",
            KeyId::Kp07 => "kp07",
            KeyId::Kp08 => "kp08",
            KeyId::Kp09 => "kp09",
            KeyId::Kp10 => "kp10",
            KeyId::Kp11 => "kp11",
            KeyId::Kp12 => "kp12",
            KeyId::Kp13 => "kp13",
            KeyId::Kp14 => "kp14",
            KeyId::Kp15 => "kp15",
            KeyId::Kp16 => "kp16",
            KeyId::Kp17 => "kp17",
            KeyId::Kp18 => "kp18",
            KeyId::Kp19 => "kp19",
            KeyId::Kp20 => "kp20",
            KeyId::WheelUp => "wheel_up",
            KeyId::WheelDown => "wheel_down",
            KeyId::WheelClick => "wheel_click",
            KeyId::Mode => "mode",
            KeyId::ThumbN => "thumb_n",
            KeyId::ThumbNe => "thumb_ne",
            KeyId::ThumbE => "thumb_e",
            KeyId::ThumbSe => "thumb_se",
            KeyId::ThumbS => "thumb_s",
            KeyId::ThumbSw => "thumb_sw",
            KeyId::ThumbW => "thumb_w",
            KeyId::ThumbNw => "thumb_nw",
            KeyId::AnalogUp => "analog_up",
            KeyId::AnalogDown => "analog_down",
            KeyId::AnalogLeft => "analog_left",
            KeyId::AnalogRight => "analog_right",
        }
    }

    pub fn is_analog(self) -> (r: bool)
        ensures r == self.spec_is_analog(),
    {
        matches!(self, KeyId::AnalogUp | KeyId::AnalogDown | KeyId::AnalogLeft | KeyId::AnalogRight)
    }

    pub open spec fn spec_is_analog(self) -> bool {
        ||| self == KeyId::AnalogUp
        ||| self == KeyId::AnalogDown
        ||| self == KeyId::AnalogLeft
        ||| self == KeyId::AnalogRight
    }

    pub fn is_thumb(self) -> (r: bool)
        ensures r == self.spec_is_thumb(),
    {
        matches!(
            self,
            KeyId::ThumbN | KeyId::ThumbNe | KeyId::ThumbE | KeyId::ThumbSe | KeyId::ThumbS
                | KeyId::ThumbSw | KeyId::ThumbW | KeyId::ThumbNw
        )
    }

    pub open spec fn spec_is_thumb(self) -> bool {
        ||| self == KeyId::ThumbN
        ||| self == KeyId::ThumbNe
        ||| self == KeyId::ThumbE
        ||| self == KeyId::ThumbSe
        ||| self == KeyId::ThumbS
        ||| self == KeyId::ThumbSw
        ||| self == KeyId::ThumbW
        ||| self == KeyId::ThumbNw
    }
}

/// Positions and keys correspond one to one.
pub proof fn lemma_key_index_roundtrip(k: KeyId)
    ensures
        0 <= key_index(k) < 36,
        key_at(key_index(k)) == Some(k),
{
}

/// Two keys with the same position are the same key.
pub proof fn lemma_key_index_injective(a: KeyId, b: KeyId)
    ensures key_index(a) == key_index(b) ==> a == b,
{
}

/// A position below the key count names a key.
pub proof fn lemma_key_at_total(i: int)
    requires 0 <= i < 36,
    ensures key_at(i) is Some, key_index(key_at(i)->0) == i,
{
}

/// A key the remapper can send.
#[derive(Debug, Clone, Copy, PartialEq, Eq, Structural)]
pub enum KeyToken {
    A,
    B,
    C,
    D,
    E,
    F,
    G,
    H,
    I,
    J,
    K,
    L,
    M,
    N,
    O,
    P,
    Q,
    R,
    S,
    T,
    U,
    V,
    W,
    X,
    Y,
    Z,
    Num0,
    Num1,
    Num2,
    Num3,
    Num4,
    Num5,
    Num6,
    Num7,
    Num8,
    Num9,
    F1,
    F2,
    F3,
    F4,
    F5,
    F6,
    F7,
    F8,
    F9,
    F10,
    F11,
    F12,
    Escape,
    Tab,
    Backspace,
    Enter,
    Space,
    Insert,
    Delete,
    Home,
    End,
    PageUp,
    PageDown,
    Up,
    Down,
    Left,
    Right,
    Minus,
    Equal,
    LeftBrace,
    RightBracket,
    Backslash,
    Semicolon,
    Apostrophe,
    Grave,
    Comma,
    Dot,
    Slash,
    NumPad0,
    NumPad1,
    NumPad2,
    NumPad3,
    NumPad4,
    NumPad5,
    NumPad6,
    NumPad7,
    NumPad8,
    NumPad9,
    NumEnter,
    NumPlus,
    NumMinus,
    NumSlash,
    NumStar,
    NumDot,
    PrintScreen,
    ScrollLock,
    Pause,
    CapsLock,
    NumLock,
    VolumeUp,
    VolumeDown,
    Mute,
    LeftShift,
    LeftCtrl,
    LeftAlt,
}

pub const TOKEN_COUNT: usize = 101;

/// The position of a token in declaration order.
pub open spec fn token_index(t: KeyToken) -> int {
    match t {
        KeyToken::A => 0,
        KeyToken::B => 1,
        KeyToken::C => 2,
        KeyToken::D => 3,
        KeyToken::E => 4,
        KeyToken::F => 5,
        KeyToken::G => 6,
        KeyToken::H => 7,
        KeyToken::I => 8,
        KeyToken::J => 9,
        KeyToken::K => 10,
        KeyToken::L => 11,
        KeyToken::M => 12,
        KeyToken::N => 13,
        KeyToken::O => 14,
        KeyToken::P => 15,
        KeyToken::Q => 16,
        KeyToken::R => 17,
        KeyToken::S => 18,
        KeyToken::T => 19,
        KeyToken::U => 20,
        KeyToken::V => 21,
        KeyToken::W => 22,
        KeyToken::X => 23,
        KeyToken::Y => 24,
        KeyToken::Z => 25,
        KeyToken::Num0 => 26,
        KeyToken::Num1 => 27,
        KeyToken::Num2 => 28,
        KeyToken::Num3 => 29,
        KeyToken::Num4 => 30,
        KeyToken::Num5 => 31,
        KeyToken::Num6 => 32,
        KeyToken::Num7 => 33,
        KeyToken::Num8 => 34,
        KeyToken::Num9 => 35,
        KeyToken::F1 => 36,
        KeyToken::F2 => 37,
        KeyToken::F3 => 38,
        KeyToken::F4 => 39,
        KeyToken::F5 => 40,
        KeyToken::F6 => 41,
        KeyToken::F7 => 42,
        KeyToken::F8 => 43,
        KeyToken::F9 => 44,
        KeyToken::F10 => 45,
        KeyToken::F11 => 46,
        KeyToken::F12 => 47,
        KeyToken::Escape => 48,
        KeyToken::Tab => 49,
        KeyToken::Backspace => 50,
        KeyToken::Enter => 51,
        KeyToken::Space => 52,
        KeyToken::Insert => 53,
        KeyToken::Delete => 54,
        KeyToken::Home => 55,
        KeyToken::End => 56,
        KeyToken::PageUp => 57,
        KeyToken::PageDown => 58,
        KeyToken::Up => 59,
        KeyToken::Down => 60,
        KeyToken::Left => 61,
        KeyToken::Right => 62,
        KeyToken::Minus => 63,
        KeyToken::Equal => 64,
        KeyToken::LeftBrace => 65,
        KeyToken::RightBracket => 66,
        KeyToken::Backslash => 67,
        KeyToken::Semicolon => 68,
        KeyToken::Apostrophe => 69,
        KeyToken::Grave => 70,
        KeyToken::Comma => 71,
        KeyToken::Dot => 72,
        KeyToken::Slash => 73,
        KeyToken::NumPad0 => 74,
        KeyToken::NumPad1 => 75,
        KeyToken::NumPad2 => 76,
        KeyToken::NumPad3 => 77,
        KeyToken::NumPad4 => 78,
        KeyToken::NumPad5 => 79,
        KeyToken::NumPad6 => 80,
        KeyToken::NumPad7 => 81,
        KeyToken::NumPad8 => 82,
        KeyToken::NumPad9 => 83,
        KeyToken::NumEnter => 84,
        KeyToken::NumPlus => 85,
        KeyToken::NumMinus => 86,
        KeyToken::NumSlash => 87,
        KeyToken::NumStar => 88,
        KeyToken::NumDot => 89,
        KeyToken::PrintScreen => 90,
        KeyToken::ScrollLock => 91,
        KeyToken::Pause => 92,
        KeyToken::CapsLock => 93,
        KeyToken::NumLock => 94,
        KeyToken::VolumeUp => 95,
        KeyToken::VolumeDown => 96,
        KeyToken::Mute => 97,
        KeyToken::LeftShift => 98,
        KeyToken::LeftCtrl => 99,
        KeyToken::LeftAlt => 100,
    }
}

/// The token at a declaration-order position.
pub open spec fn token_at(i: int) -> Option<KeyToken> {
    if i == 0 { Some(KeyToken::A) } else if i == 1 { Some(KeyToken::B) } else if i == 2 { Some(KeyToken::C) } else if i == 3 { Some(KeyToken::D) } else if i == 4 { Some(KeyToken::E) } else if i == 5 { Some(KeyToken::F) } else if i == 6 { Some(KeyToken::G) } else if i == 7 { Some(KeyToken::H) } else if i == 8 { Some(KeyToken::I) } else if i == 9 { Some(KeyToken::J) } else if i == 10 { Some(KeyToken::K) } else if i == 11 { Some(KeyToken::L) } else if i == 12 { Some(KeyToken::M) } else if i == 13 { Some(KeyToken::N) } else if i == 14 { Some(KeyToken::O) } else if i == 15 { Some(KeyToken::P) } else if i == 16 { Some(KeyToken::Q) } else if i == 17 { Some(KeyToken::R) } else if i == 18 { Some(KeyToken::S) } else if i == 19 { Some(KeyToken::T) } else if i == 20 { Some(KeyToken::U) } else if i == 21 { Some(KeyToken::V) } else if i == 22 { Some(KeyToken::W) } else if i == 23 { Some(KeyToken::X) } else if i == 24 { Some(KeyToken::Y) } else if i == 25 { Some(KeyToken::Z) } else if i == 26 { Some(KeyToken::Num0) } else if i == 27 { Some(KeyToken::Num1) } else if i == 28 { Some(KeyToken::Num2) } else if i == 29 { Some(KeyToken::Num3) } else if i == 30 { Some(KeyToken::Num4) } else if i == 31 { Some(KeyToken::Num5) } else if i == 32 { Some(KeyToken::Num6) } else if i == 33 { Some(KeyToken::Num7) } else if i == 34 { Some(KeyToken::Num8) } else if i == 35 { Some(KeyToken::Num9) } else if i == 36 { Some(KeyToken::F1) } else if i == 37 { Some(KeyToken::F2) } else if i == 38 { Some(KeyToken::F3) } else if i == 39 { Some(KeyToken::F4) } else if i == 40 { Some(KeyToken::F5) } else if i == 41 { Some(KeyToken::F6) } else if i == 42 { Some(KeyToken::F7) } else if i == 43 { Some(KeyToken::F8) } else if i == 44 { Some(KeyToken::F9) } else if i == 45 { Some(KeyToken::F10) } else if i == 46 { Some(KeyToken::F11) } else if i == 47 { Some(KeyToken::F12) } else if i == 48 { Some(KeyToken::Escape) } else if i == 49 { Some(KeyToken::Tab) } else if i == 50 { Some(KeyToken::Backspace) } else if i == 51 { Some(KeyToken::Enter) } else if i == 52 { Some(KeyToken::Space) } else if i == 53 { Some(KeyToken::Insert) } else if i == 54 { Some(KeyToken::Delete) } else if i == 55 { Some(KeyToken::Home) } else if i == 56 { Some(KeyToken::End) } else if i == 57 { Some(KeyToken::PageUp) } else if i == 58 { Some(KeyToken::PageDown) } else if i == 59 { Some(KeyToken::Up) } else if i == 60 { Some(KeyToken::Down) } else if i == 61 { Some(KeyToken::Left) } else if i == 62 { Some(KeyToken::Right) } else if i == 63 { Some(KeyToken::Minus) } else if i == 64 { Some(KeyToken::Equal) } else if i == 65 { Some(KeyToken::LeftBrace) } else if i == 66 { Some(KeyToken::RightBracket) } else if i == 67 { Some(KeyToken::Backslash) } else if i == 68 { Some(KeyToken::Semicolon) } else if i == 69 { Some(KeyToken::Apostrophe) } else if i == 70 { Some(KeyToken::Grave) } else if i == 71 { Some(KeyToken::Comma) } else if i == 72 { Some(KeyToken::Dot) } else if i == 73 { Some(KeyToken::Slash) } else if i == 74 { Some(KeyToken::NumPad0) } else if i == 75 { Some(KeyToken::NumPad1) } else if i == 76 { Some(KeyToken::NumPad2) } else if i == 77 { Some(KeyToken::NumPad3) } else if i == 78 { Some(KeyToken::NumPad4) } else if i == 79 { Some(KeyToken::NumPad5) } else if i == 80 { Some(KeyToken::NumPad6) } else if i == 81 { Some(KeyToken::NumPad7) } else if i == 82 { Some(KeyToken::NumPad8) } else if i == 83 { Some(KeyToken::NumPad9) } else if i == 84 { Some(KeyToken::NumEnter) } else if i == 85 { Some(KeyToken::NumPlus) } else if i == 86 { Some(KeyToken::NumMinus) } else if i == 87 { Some(KeyToken::NumSlash) } else if i == 88 { Some(KeyToken::NumStar) } else if i == 89 { Some(KeyToken::NumDot) } else if i == 90 { Some(KeyToken::PrintScreen) } else if i == 91 { Some(KeyToken::ScrollLock) } else if i == 92 { Some(KeyToken::Pause) } else if i == 93 { Some(KeyToken::CapsLock) } else if i == 94 { Some(KeyToken::NumLock) } else if i == 95 { Some(KeyToken::VolumeUp) } else if i == 96 { Some(KeyToken::VolumeDown) } else if i == 97 { Some(KeyToken::Mute) } else if i == 98 { Some(KeyToken::LeftShift) } else if i == 99 { Some(KeyToken::LeftCtrl) } else if i == 100 { Some(KeyToken::LeftAlt) } else { None }
}

impl KeyToken {
    pub fn from_index(i: usize) -> (t: Option<KeyToken>)
        ensures t == token_at(i as int),
    {
        match i {
            0 => Some(KeyToken::A),
            1 => Some(KeyToken::B),
            2 => Some(KeyToken::C),
            3 => Some(KeyToken::D),
            4 => Some(KeyToken::E),
            5 => Some(KeyToken::F),
            6 => Some(KeyToken::G),
            7 => Some(KeyToken::H),
            8 => Some(KeyToken::I),
            9 => Some(KeyToken::J),
            10 => Some(KeyToken::K),
            11 => Some(KeyToken::L),
            12 => Some(KeyToken::M),
            13 => Some(KeyToken::N),
            14 => Some(KeyToken::O),
            15 => Some(KeyToken::P),
            16 => Some(KeyToken::Q),
            17 => Some(KeyToken::R),
            18 => Some(KeyToken::S),
            19 => Some(KeyToken::T),
            20 => Some(KeyToken::U),
            21 => Some(KeyToken::V),
            22 => Some(KeyToken::W),
            23 => Some(KeyToken::X),
            24 => Some(KeyToken::Y),
            25 => Some(KeyToken::Z),
            26 => Some(KeyToken::Num0),
            27 => Some(KeyToken::Num1),
            28 => Some(KeyToken::Num2),
            29 => Some(KeyToken::Num3),
            30 => Some(KeyToken::Num4),
            31 => Some(KeyToken::Num5),
            32 => Some(KeyToken::Num6),
            33 => Some(KeyToken::Num7),
            34 => Some(KeyToken::Num8),
            35 => Some(KeyToken::Num9),
            36 => Some(KeyToken::F1),
            37 => Some(KeyToken::F2),
            38 => Some(KeyToken::F3),
            39 => Some(KeyToken::F4),
            40 => Some(KeyToken::F5),
            41 => Some(KeyToken::F6),
            42 => Some(KeyToken::F7),
            43 => Some(KeyToken::F8),
            44 => Some(KeyToken::F9),
            45 => Some(KeyToken::F10),
            46 => Some(KeyToken::F11),
            47 => Some(KeyToken::F12),
            48 => Some(KeyToken::Escape),
            49 => Some(KeyToken::Tab),
            50 => Some(KeyToken::Backspace),
            51 => Some(KeyToken::Enter),
            52 => Some(KeyToken::Space),
            53 => Some(KeyToken::Insert),
            54 => Some(KeyToken::Delete),
            55 => Some(KeyToken::Home),
            56 => Some(KeyToken::End),
            57 => Some(KeyToken::PageUp),
            58 => Some(KeyToken::PageDown),
            59 => Some(KeyToken::Up),
            60 => Some(KeyToken::Down),
            61 => Some(KeyToken::Left),
            62 => Some(KeyToken::Right),
            63 => Some(KeyToken::Minus),
            64 => Some(KeyToken::Equal),
            65 => Some(KeyToken::LeftBrace),
            66 => Some(KeyToken::RightBracket),
            67 => Some(KeyToken::Backslash),
            68 => Some(KeyToken::Semicolon),
            69 => Some(KeyToken::Apostrophe),
            70 => Some(KeyToken::Grave),
            71 => Some(KeyToken::Comma),
            72 => Some(KeyToken::Dot),
            73 => Some(KeyToken::Slash),
            74 => Some(KeyToken::NumPad0),
            75 => Some(KeyToken::NumPad1),
            76 => Some(KeyToken::NumPad2),
            77 => Some(KeyToken::NumPad3),
            78 => Some(KeyToken::NumPad4),
            79 => Some(KeyToken::NumPad5),
            80 => Some(KeyToken::NumPad6),
            81 => Some(KeyToken::NumPad7),
            82 => Some(KeyToken::NumPad8),
            83 => Some(KeyToken::NumPad9),
            84 => Some(KeyToken::NumEnter),
            85 => Some(KeyToken::NumPlus),
            86 => Some(KeyToken::NumMinus),
            87 => Some(KeyToken::NumSlash),
            88 => Some(KeyToken::NumStar),
            89 => Some(KeyToken::NumDot),
            90 => Some(KeyToken::PrintScreen),
            91 => Some(KeyToken::ScrollLock),
            92 => Some(KeyToken::Pause),
            93 => Some(KeyToken::CapsLock),
            94 => Some(KeyToken::NumLock),
            95 => Some(KeyToken::VolumeUp),
            96 => Some(KeyToken::VolumeDown),
            97 => Some(KeyToken::Mute),
            98 => Some(KeyToken::LeftShift),
            99 => Some(KeyToken::LeftCtrl),
            100 => Some(KeyToken::LeftAlt),
            _ => None,
        }
    }
}

/// Positions and tokens correspond one to one.
pub proof fn lemma_token_index_roundtrip(t: KeyToken)
    ensures
        0 <= token_index(t) < TOKEN_COUNT,
        token_at(token_index(t)) == Some(t),
{
}

/// A modifier held around a key.
#[derive(Debug, Clone, Copy, PartialEq, Eq, Structural)]
pub enum Modifier {
    Ctrl,
    Shift,
    Alt,
    Super,
    CtrlR,
    ShiftR,
    AltR,
    SuperR,
}

#[derive(Debug, Clone, Copy, PartialEq, Eq, Structural)]
pub enum MouseButton {
    Left,
    Right,
    Middle,
    Back,
    Forward,
}

#[derive(Debug, Clone, Copy, PartialEq, Eq, Structural)]
pub enum ScrollDir {
    Up,
    Down,
}

/// Which half of a keystroke a macro step plays.
#[derive(Debug, Clone, Copy, PartialEq, Eq, Structural)]
pub enum Edge {
    Down,
    Up,
    Tap,
}

#[derive(Debug, Clone, Copy, PartialEq, Eq, Structural)]
pub enum MouseTarget {
    Button { button: MouseButton },
    Scroll { scroll: ScrollDir },
}

#[derive(Debug, Clone, PartialEq, Eq)]
pub enum MacroKind {
    Key { key: KeyToken, modifiers: Vec<Modifier> },
    Mouse { target: MouseTarget },
}

#[derive(Debug, Clone, PartialEq, Eq)]
pub struct MacroStep {
    pub kind: MacroKind,
    pub edge: Edge,
    pub delay_ms: u32,
}

/// What a key does when pressed.
#[derive(Debug, PartialEq, Eq)]
pub enum Action {
    Key { key: KeyToken, modifiers: Vec<Modifier> },
    Macro { steps: Vec<MacroStep> },
    Mouse { target: MouseTarget },
    SwitchProfile { profile: String },
    NextProfile,
    HoldRepeat { inner: Box<Action>, rate_ms: u32 },
}

/// The mathematical value of a [`MacroKind`].
pub enum MacroKindModel {
    Key { key: KeyToken, modifiers: Seq<Modifier> },
    Mouse { target: MouseTarget },
}

/// The mathematical value of a [`MacroStep`].
pub struct MacroStepModel {
    pub kind: MacroKindModel,
    pub edge: Edge,
    pub delay_ms: u32,
}

/// The mathematical value of an [`Action`].
pub enum ActionModel {
    Key { key: KeyToken, modifiers: Seq<Modifier> },
    Macro { steps: Seq<MacroStepModel> },
    Mouse { target: MouseTarget },
    SwitchProfile { profile: Seq<char> },
    NextProfile,
    HoldRepeat { inner: Box<ActionModel>, rate_ms: u32 },
}

impl View for MacroKind {
    type V = MacroKindModel;

    open spec fn view(&self) -> MacroKindModel {
        match self {
            MacroKind::Key { key, modifiers } => MacroKindModel::Key { key: *key, modifiers: modifiers@ },
            MacroKind::Mouse { target } => MacroKindModel::Mouse { target: *target },
        }
    }
}

impl View for MacroStep {
    type V = MacroStepModel;

    open spec fn view(&self) -> MacroStepModel {
        MacroStepModel { kind: self.kind@, edge: self.edge, delay_ms: self.delay_ms }
    }
}

pub open spec fn steps_model(steps: Seq<MacroStep>) -> Seq<MacroStepModel> {
    steps.map_values(|s: MacroStep| s@)
}

pub open spec fn action_model(a: Action) -> ActionModel
    decreases a,
{
    match a {
        Action::Key { key, modifiers } => ActionModel::Key { key, modifiers: modifiers@ },
        Action::Macro { steps } => ActionModel::Macro { steps: steps_model(steps@) },
        Action::Mouse { target } => ActionModel::Mouse { target },
        Action::SwitchProfile { profile } => ActionModel::SwitchProfile { profile: profile@ },
        Action::NextProfile => ActionModel::NextProfile,
        Action::HoldRepeat { inner, rate_ms } => ActionModel::HoldRepeat {
            inner: Box::new(action_model(*inner)),
            rate_ms,
        },
    }
}

impl View for Action {
    type V = ActionModel;

    open spec fn view(&self) -> ActionModel {
        action_model(*self)
    }
}

fn copy_modifiers(mods: &Vec<Modifier>) -> (r: Vec<Modifier>)
    ensures r@ == mods@,
{
    let mut r: Vec<Modifier> = Vec::new();
    let mut i: usize = 0;
    while i < mods.len()
        invariant i <= mods.len(), r@ == mods@.take(i as int),
        decreases mods.len() - i,
    {
        r.push(mods[i]);
        i += 1;
    }
    r
}

impl MacroKind {
    pub fn duplicate(&self) -> (r: MacroKind)
        ensures r@ == self@,
    {
        match self {
            MacroKind::Key { key, modifiers } => MacroKind::Key { key: *key, modifiers: copy_modifiers(modifiers) },
            MacroKind::Mouse { target } => MacroKind::Mouse { target: *target },
        }
    }
}

impl MacroStep {
    pub fn duplicate(&self) -> (r: MacroStep)
        ensures r@ == self@,
    {
        MacroStep { kind: self.kind.duplicate(), edge: self.edge, delay_ms: self.delay_ms }
    }
}

fn copy_steps(steps: &Vec<MacroStep>) -> (r: Vec<MacroStep>)
    ensures steps_model(r@) == steps_model(steps@),
{
    let mut r: Vec<MacroStep> = Vec::new();
    let mut i: usize = 0;
    while i < steps.len()
        invariant i <= steps.len(), r@.len() == i,
            forall|j: int| 0 <= j < i ==> #[trigger] r@[j]@ == steps@[j]@,
        decreases steps.len() - i,
    {
        r.push(steps[i].duplicate());
        i += 1;
    }
    assert(steps_model(r@) =~= steps_model(steps@));
    r
}

impl Action {
    /// A copy with the same value.
    pub fn duplicate(&self) -> (r: Action)
        ensures r@ == self@,
        decreases self,
    {
        match self {
            Action::Key { key, modifiers } => Action::Key { key: *key, modifiers: copy_modifiers(modifiers) },
            Action::Macro { steps } => Action::Macro { steps: copy_steps(steps) },
            Action::Mouse { target } => Action::Mouse { target: *target },
            Action::SwitchProfile { profile } => Action::SwitchProfile { profile: profile.clone() },
            Action::NextProfile => Action::NextProfile,
            Action::HoldRepeat { inner, rate_ms } => {
                let copied = (**inner).duplicate();
                Action::HoldRepeat { inner: Box::new(copied), rate_ms: *rate_ms }
            },
        }
    }
}

#[derive(Debug, Clone, Copy, PartialEq, Eq, Structural)]
pub enum LightingEffect {
    Static,
    Wave,
    Spectrum,
    Breath,
    Reactive,
    Starlight,
    Off,
}

#[derive(Debug, Clone, Copy, PartialEq, Eq)]
pub struct Lighting {
    pub effect: LightingEffect,
    pub brightness: u8,
    pub color: Option<[u8; 3]>,
}

#[derive(Debug, Clone, Copy, PartialEq, Eq, Structural)]
pub enum GameId {
    Default,
    LeagueOfLegends,
    Dota2,
    WorldOfWarcraft,
    FinalFantasyXiv,
    PathOfExile,
    Overwatch2,
    Valorant,
    CounterStrike2,
    ApexLegends,
    Fortnite,
    Diablo4,
    EldenRing,
    GuildWars2,
    ElderScrollsOnline,
    Minecraft,
    /// A profile the user made, not one from the shipped pack.
    Custom,
}

} // verus!
