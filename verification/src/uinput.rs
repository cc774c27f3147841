//! The virtual keyboard and mouse the remapped events go to: their
//! names, which device an event goes to, and reading a key code back as a
//! key.

use vstd::prelude::*;
use crate::keymap::{kernel_key, token_code, BTN_EXTRA, BTN_LEFT, BTN_MIDDLE, BTN_RIGHT, BTN_SIDE, EV_REL};
use crate::remap::Emitted;
use crate::types::KeyToken;

verus! {

pub const KEYBOARD_NAME: &'static str = "OpenTartarus Keyboard";
pub const MOUSE_NAME: &'static str = "OpenTartarus Mouse";

/// The key whose code this is, read through the code table backwards.
pub open spec fn code_token(code: u16) -> Option<KeyToken> {
    if code == 30 { Some(KeyToken::A) } else if code == 48 { Some(KeyToken::B) } else if code == 46 { Some(KeyToken::C) } else if code == 32 { Some(KeyToken::D) } else if code == 18 { Some(KeyToken::E) } else if code == 33 { Some(KeyToken::F) } else if code == 34 { Some(KeyToken::G) } else if code == 35 { Some(KeyToken::H) } else if code == 23 { Some(KeyToken::I) } else if code == 36 { Some(KeyToken::J) } else if code == 37 { Some(KeyToken::K) } else if code == 38 { Some(KeyToken::L) } else if code == 50 { Some(KeyToken::M) } else if code == 49 { Some(KeyToken::N) } else if code == 24 { Some(KeyToken::O) } else if code == 25 { Some(KeyToken::P) } else if code == 16 { Some(KeyToken::Q) } else if code == 19 { Some(KeyToken::R) } else if code == 31 { Some(KeyToken::S) } else if code == 20 { Some(KeyToken::T) } else if code == 22 { Some(KeyToken::U) } else if code == 47 { Some(KeyToken::V) } else if code == 17 { Some(KeyToken::W) } else if code == 45 { Some(KeyToken::X) } else if code == 21 { Some(KeyToken::Y) } else if code == 44 { Some(KeyToken::Z) } else if code == 11 { Some(KeyToken::Num0) } else if code == 2 { Some(KeyToken::Num1) } else if code == 3 { Some(KeyToken::Num2) } else if code == 4 { Some(KeyToken::Num3) } else if code == 5 { Some(KeyToken::Num4) } else if code == 6 { Some(KeyToken::Num5) } else if code == 7 { Some(KeyToken::Num6) } else if code == 8 { Some(KeyToken::Num7) } else if code == 9 { Some(KeyToken::Num8) } else if code == 10 { Some(KeyToken::Num9) } else if code == 59 { Some(KeyToken::F1) } else if code == 60 { Some(KeyToken::F2) } else if code == 61 { Some(KeyToken::F3) } else if code == 62 { Some(KeyToken::F4) } else if code == 63 { Some(KeyToken::F5) } else if code == 64 { Some(KeyToken::F6) } else if code == 65 { Some(KeyToken::F7) } else if code == 66 { Some(KeyToken::F8) } else if code == 67 { Some(KeyToken::F9) } else if code == 68 { Some(KeyToken::F10) } else if code == 87 { Some(KeyToken::F11) } else if code == 88 { Some(KeyToken::F12) } else if code == 1 { Some(KeyToken::Escape) } else if code == 15 { Some(KeyToken::Tab) } else if code == 14 { Some(KeyToken::Backspace) } else if code == 28 { Some(KeyToken::Enter) } else if code == 57 { Some(KeyToken::Space) } else if code == 110 { Some(KeyToken::Insert) } else if code == 111 { Some(KeyToken::Delete) } else if code == 102 { Some(KeyToken::Home) } else if code == 107 { Some(KeyToken::End) } else if code == 104 { Some(KeyToken::PageUp) } else if code == 109 { Some(KeyToken::PageDown) } else if code == 103 { Some(KeyToken::Up) } else if code == 108 { Some(KeyToken::Down) } else if code == 105 { Some(KeyToken::Left) } else if code == 106 { Some(KeyToken::Right) } else if code == 12 { Some(KeyToken::Minus) } else if code == 13 { Some(KeyToken::Equal) } else if code == 26 { Some(KeyToken::LeftBrace) } else if code == 27 { Some(KeyToken::RightBracket) } else if code == 43 { Some(KeyToken::Backslash) } else if code == 39 { Some(KeyToken::Semicolon) } else if code == 40 { Some(KeyToken::Apostrophe) } else if code == 41 { Some(KeyToken::Grave) } else if code == 51 { Some(KeyToken::Comma) } else if code == 52 { Some(KeyToken::Dot) } else if code == 53 { Some(KeyToken::Slash) } else if code == 82 { Some(KeyToken::NumPad0) } else if code == 79 { Some(KeyToken::NumPad1) } else if code == 80 { Some(KeyToken::NumPad2) } else if code == 81 { Some(KeyToken::NumPad3) } else if code == 75 { Some(KeyToken::NumPad4) } else if code == 76 { Some(KeyToken::NumPad5) } else if code == 77 { Some(KeyToken::NumPad6) } else if code == 71 { Some(KeyToken::NumPad7) } else if code == 72 { Some(KeyToken::NumPad8) } else if code == 73 { Some(KeyToken::NumPad9) } else if code == 96 { Some(KeyToken::NumEnter) } else if code == 78 { Some(KeyToken::NumPlus) } else if code == 74 { Some(KeyToken::NumMinus) } else if code == 98 { Some(KeyToken::NumSlash) } else if code == 55 { Some(KeyToken::NumStar) } else if code == 83 { Some(KeyToken::NumDot) } else if code == 99 { Some(KeyToken::PrintScreen) } else if code == 70 { Some(KeyToken::ScrollLock) } else if code == 119 { Some(KeyToken::Pause) } else if code == 58 { Some(KeyToken::CapsLock) } else if code == 69 { Some(KeyToken::NumLock) } else if code == 115 { Some(KeyToken::VolumeUp) } else if code == 114 { Some(KeyToken::VolumeDown) } else if code == 113 { Some(KeyToken::Mute) } else if code == 42 { Some(KeyToken::LeftShift) } else if code == 29 { Some(KeyToken::LeftCtrl) } else if code == 56 { Some(KeyToken::LeftAlt) } else { None }
}

/// Reading a code back names the key the kernel gives that code: a
/// physical `M` (`KEY_M`, 50) reads back as `M`.
pub proof fn lemma_read_back_is_the_kernels(code: u16)
    ensures code_token(code) == kernel_key(code),
{
}

/// Reading a key's code back gives the key: no two keys share a code.
pub proof fn lemma_code_token_inverts(t: KeyToken)
    ensures code_token(token_code(t)) == Some(t),
{
    match t {
        KeyToken::A => {},
        KeyToken::B => {},
        KeyToken::C => {},
        KeyToken::D => {},
        KeyToken::E => {},
        KeyToken::F => {},
        KeyToken::G => {},
        KeyToken::H => {},
        KeyToken::I => {},
        KeyToken::J => {},
        KeyToken::K => {},
        KeyToken::L => {},
        KeyToken::M => {},
        KeyToken::N => {},
        KeyToken::O => {},
        KeyToken::P => {},
        KeyToken::Q => {},
        KeyToken::R => {},
        KeyToken::S => {},
        KeyToken::T => {},
        KeyToken::U => {},
        KeyToken::V => {},
        KeyToken::W => {},
        KeyToken::X => {},
        KeyToken::Y => {},
        KeyToken::Z => {},
        KeyToken::Num0 => {},
        KeyToken::Num1 => {},
        KeyToken::Num2 => {},
        KeyToken::Num3 => {},
        KeyToken::Num4 => {},
        KeyToken::Num5 => {},
        KeyToken::Num6 => {},
        KeyToken::Num7 => {},
        KeyToken::Num8 => {},
        KeyToken::Num9 => {},
        KeyToken::F1 => {},
        KeyToken::F2 => {},
        KeyToken::F3 => {},
        KeyToken::F4 => {},
        KeyToken::F5 => {},
        KeyToken::F6 => {},
        KeyToken::F7 => {},
        KeyToken::F8 => {},
        KeyToken::F9 => {},
        KeyToken::F10 => {},
        KeyToken::F11 => {},
        KeyToken::F12 => {},
        KeyToken::Escape => {},
        KeyToken::Tab => {},
        KeyToken::Backspace => {},
        KeyToken::Enter => {},
        KeyToken::Space => {},
        KeyToken::Insert => {},
        KeyToken::Delete => {},
        KeyToken::Home => {},
        KeyToken::End => {},
        KeyToken::PageUp => {},
        KeyToken::PageDown => {},
        KeyToken::Up => {},
        KeyToken::Down => {},
        KeyToken::Left => {},
        KeyToken::Right => {},
        KeyToken::Minus => {},
        KeyToken::Equal => {},
        KeyToken::LeftBrace => {},
        KeyToken::RightBracket => {},
        KeyToken::Backslash => {},
        KeyToken::Semicolon => {},
        KeyToken::Apostrophe => {},
        KeyToken::Grave => {},
        KeyToken::Comma => {},
        KeyToken::Dot => {},
        KeyToken::Slash => {},
        KeyToken::NumPad0 => {},
        KeyToken::NumPad1 => {},
        KeyToken::NumPad2 => {},
        KeyToken::NumPad3 => {},
        KeyToken::NumPad4 => {},
        KeyToken::NumPad5 => {},
        KeyToken::NumPad6 => {},
        KeyToken::NumPad7 => {},
        KeyToken::NumPad8 => {},
        KeyToken::NumPad9 => {},
        KeyToken::NumEnter => {},
        KeyToken::NumPlus => {},
        KeyToken::NumMinus => {},
        KeyToken::NumSlash => {},
        KeyToken::NumStar => {},
        KeyToken::NumDot => {},
        KeyToken::PrintScreen => {},
        KeyToken::ScrollLock => {},
        KeyToken::Pause => {},
        KeyToken::CapsLock => {},
        KeyToken::NumLock => {},
        KeyToken::VolumeUp => {},
        KeyToken::VolumeDown => {},
        KeyToken::Mute => {},
        KeyToken::LeftShift => {},
        KeyToken::LeftCtrl => {},
        KeyToken::LeftAlt => {},
    }
}

/// No two keys send the same code.
pub proof fn lemma_token_codes_distinct(a: KeyToken, b: KeyToken)
    ensures token_code(a) == token_code(b) ==> a == b,
{
    lemma_code_token_inverts(a);
    lemma_code_token_inverts(b);
}

/// The key a code stands for, if any key sends it.
pub fn token_from_evdev(code: u16) -> (r: Option<KeyToken>)
    ensures
        r == code_token(code),
        r matches Some(t) ==> token_code(t) == code,
        r is None ==> forall|t: KeyToken| token_code(t) != code,
{
    let r = match code {
        30 => Some(KeyToken::A),
        48 => Some(KeyToken::B),
        46 => Some(KeyToken::C),
        32 => Some(KeyToken::D),
        18 => Some(KeyToken::E),
        33 => Some(KeyToken::F),
        34 => Some(KeyToken::G),
        35 => Some(KeyToken::H),
        23 => Some(KeyToken::I),
        36 => Some(KeyToken::J),
        37 => Some(KeyToken::K),
        38 => Some(KeyToken::L),
        50 => Some(KeyToken::M),
        49 => Some(KeyToken::N),
        24 => Some(KeyToken::O),
        25 => Some(KeyToken::P),
        16 => Some(KeyToken::Q),
        19 => Some(KeyToken::R),
        31 => Some(KeyToken::S),
        20 => Some(KeyToken::T),
        22 => Some(KeyToken::U),
        47 => Some(KeyToken::V),
        17 => Some(KeyToken::W),
        45 => Some(KeyToken::X),
        21 => Some(KeyToken::Y),
        44 => Some(KeyToken::Z),
        11 => Some(KeyToken::Num0),
        2 => Some(KeyToken::Num1),
        3 => Some(KeyToken::Num2),
        4 => Some(KeyToken::Num3),
        5 => Some(KeyToken::Num4),
        6 => Some(KeyToken::Num5),
        7 => Some(KeyToken::Num6),
        8 => Some(KeyToken::Num7),
        9 => Some(KeyToken::Num8),
        10 => Some(KeyToken::Num9),
        59 => Some(KeyToken::F1),
        60 => Some(KeyToken::F2),
        61 => Some(KeyToken::F3),
        62 => Some(KeyToken::F4),
        63 => Some(KeyToken::F5),
        64 => Some(KeyToken::F6),
        65 => Some(KeyToken::F7),
        66 => Some(KeyToken::F8),
        67 => Some(KeyToken::F9),
        68 => Some(KeyToken::F10),
        87 => Some(KeyToken::F11),
        88 => Some(KeyToken::F12),
        1 => Some(KeyToken::Escape),
        15 => Some(KeyToken::Tab),
        14 => Some(KeyToken::Backspace),
        28 => Some(KeyToken::Enter),
        57 => Some(KeyToken::Space),
        110 => Some(KeyToken::Insert),
        111 => Some(KeyToken::Delete),
        102 => Some(KeyToken::Home),
        107 => Some(KeyToken::End),
        104 => Some(KeyToken::PageUp),
        109 => Some(KeyToken::PageDown),
        103 => Some(KeyToken::Up),
        108 => Some(KeyToken::Down),
        105 => Some(KeyToken::Left),
        106 => Some(KeyToken::Right),
        12 => Some(KeyToken::Minus),
        13 => Some(KeyToken::Equal),
        26 => Some(KeyToken::LeftBrace),
        27 => Some(KeyToken::RightBracket),
        43 => Some(KeyToken::Backslash),
        39 => Some(KeyToken::Semicolon),
        40 => Some(KeyToken::Apostrophe),
        41 => Some(KeyToken::Grave),
        51 => Some(KeyToken::Comma),
        52 => Some(KeyToken::Dot),
        53 => Some(KeyToken::Slash),
        82 => Some(KeyToken::NumPad0),
        79 => Some(KeyToken::NumPad1),
        80 => Some(KeyToken::NumPad2),
        81 => Some(KeyToken::NumPad3),
        75 => Some(KeyToken::NumPad4),
        76 => Some(KeyToken::NumPad5),
        77 => Some(KeyToken::NumPad6),
        71 => Some(KeyToken::NumPad7),
        72 => Some(KeyToken::NumPad8),
        73 => Some(KeyToken::NumPad9),
        96 => Some(KeyToken::NumEnter),
        78 => Some(KeyToken::NumPlus),
        74 => Some(KeyToken::NumMinus),
        98 => Some(KeyToken::NumSlash),
        55 => Some(KeyToken::NumStar),
        83 => Some(KeyToken::NumDot),
        99 => Some(KeyToken::PrintScreen),
        70 => Some(KeyToken::ScrollLock),
        119 => Some(KeyToken::Pause),
        58 => Some(KeyToken::CapsLock),
        69 => Some(KeyToken::NumLock),
        115 => Some(KeyToken::VolumeUp),
        114 => Some(KeyToken::VolumeDown),
        113 => Some(KeyToken::Mute),
        42 => Some(KeyToken::LeftShift),
        29 => Some(KeyToken::LeftCtrl),
        56 => Some(KeyToken::LeftAlt),
        _ => None,
    };
    proof {
        if r is None {
            assert forall|t: KeyToken| token_code(t) != code by {
                lemma_code_token_inverts(t);
            }
        }
    }
    r
}

/// The mouse buttons' codes.
pub open spec fn mouse_button_code(code: u16) -> bool {
    code == BTN_LEFT || code == BTN_RIGHT || code == BTN_MIDDLE || code == BTN_SIDE || code == BTN_EXTRA
}

pub fn is_mouse_button(code: u16) -> (r: bool)
    ensures r == mouse_button_code(code),
{
    code == BTN_LEFT || code == BTN_RIGHT || code == BTN_MIDDLE || code == BTN_SIDE || code == BTN_EXTRA
}

/// Wheel steps and mouse buttons always go to the mouse; everything else
/// goes where the event says.
pub open spec fn to_keyboard(e: Emitted) -> bool {
    !(e.ev_type == EV_REL || mouse_button_code(e.code)) && e.keyboard
}

pub fn routes_to_keyboard(e: &Emitted) -> (r: bool)
    ensures r == to_keyboard(*e),
{
    if e.ev_type == EV_REL || is_mouse_button(e.code) {
        return false;
    }
    e.keyboard
}

} // verus!
