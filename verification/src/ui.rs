//! The window's own rules: which key press becomes a binding, what the
//! inspector reads, which actions count as automation, and the menu.

use vstd::prelude::*;
use crate::error::{error_user_message, ErrorCode};
use crate::labels::{action_label, bind_label, bind_label_spec, opt_model};
use crate::remap::{action_events, press_spec, release_spec, EngineState, KEY_DOWN, KEY_UP};
use crate::text::{chars_of, from_chars, lower_chars, str_eq, trim_chars, trim_seq};
use crate::types::{
    Action, ActionModel, KeyId, KeyToken, LightingEffect, Modifier, MouseButton, MouseTarget,
    ScrollDir, key_index,
};

verus! {

pub const BANNER_COULD_NOT_START_PREFIX: &'static str = "OpenTartarus couldn\u{2019}t start.";
pub const BUTTON_FIX_PERMISSIONS: &'static str = "Fix permissions";
pub const BUTTON_QUIT: &'static str = "Quit";
pub const UNBOUND_PLACEHOLDER: &'static str = "\u{2014}";
pub const READOUT_SWITCH_PREFIX: &'static str = "Switch to ";
pub const READOUT_NEXT_PROFILE: &'static str = "Next profile";
pub const MOUSE_LEFT: &'static str = "Left";
pub const MOUSE_RIGHT: &'static str = "Right";
pub const MOUSE_MIDDLE: &'static str = "Middle";
pub const MOUSE_BACK: &'static str = "Back";
pub const MOUSE_FORWARD: &'static str = "Forward";
pub const MOUSE_WHEEL_UP: &'static str = "Wheel+";
pub const MOUSE_WHEEL_DOWN: &'static str = "Wheel-";
pub const HELD_SHIFT: &'static str = "Shift";
pub const HELD_CTRL: &'static str = "Ctrl";
pub const HELD_ALT: &'static str = "Alt";

/// Where the window is in starting up.
#[derive(Debug, Clone, Copy, PartialEq, Eq, Structural)]
pub enum Phase {
    Connecting,
    Running,
    FailedStart,
}

/// Which panel the centre column shows.
#[derive(Debug, Clone, Copy, PartialEq, Eq, Structural)]
pub enum Tab {
    Keys,
    Lighting,
}

impl Default for Tab {
    fn default() -> (t: Tab)
        ensures t == Tab::Keys,
    {
        Tab::Keys
    }
}

/// What closing the window does.
#[derive(Debug, Clone, Copy, PartialEq, Eq, Structural)]
pub enum CloseAction {
    HideToTray,
    ExitUi,
}

/// On Wayland closing the window ends the window's process; elsewhere the
/// window hides to the tray.
pub fn close_action(wayland: bool) -> (r: CloseAction)
    ensures r == if wayland { CloseAction::ExitUi } else { CloseAction::HideToTray },
{
    if wayland { CloseAction::ExitUi } else { CloseAction::HideToTray }
}

/// One row of the profile list.
#[derive(Debug, Clone)]
pub struct ProfileRow {
    pub id: String,
    pub name: String,
    pub is_active: bool,
    pub can_revert: bool,
    /// A profile the user made: it can be deleted, not reverted.
    pub can_delete: bool,
    pub color: Option<[u8; 3]>,
}

/// The message across the top of the window.
#[derive(Debug, Clone, PartialEq, Eq)]
pub enum Banner {
    Starting,
    CouldNotStart(String),
    NoDevice,
    Permission,
    Disconnect,
    GrabConflict { name: Option<String> },
    UnplugAfterFix,
    SignOut,
    Other(String),
}

/// The effects whose look depends on the chosen colour.
pub open spec fn effect_uses_color(effect: LightingEffect) -> bool {
    effect == LightingEffect::Static || effect == LightingEffect::Breath
        || effect == LightingEffect::Reactive || effect == LightingEffect::Starlight
}

pub fn uses_color(effect: LightingEffect) -> (r: bool)
    ensures r == effect_uses_color(effect),
{
    match effect {
        LightingEffect::Static | LightingEffect::Breath | LightingEffect::Reactive | LightingEffect::Starlight => true,
        _ => false,
    }
}

/// An effect's name in the picker.
pub open spec fn effect_text(effect: LightingEffect) -> Seq<char> {
    match effect {
        LightingEffect::Static => "static"@,
        LightingEffect::Wave => "wave"@,
        LightingEffect::Spectrum => "spectrum"@,
        LightingEffect::Breath => "breath"@,
        LightingEffect::Reactive => "reactive"@,
        LightingEffect::Starlight => "starlight"@,
        LightingEffect::Off => "none"@,
    }
}

pub fn effect_name(effect: LightingEffect) -> (s: &'static str)
    ensures s@ == effect_text(effect),
{
    match effect {
        LightingEffect::Static => "static",
        LightingEffect::Wave => "wave",
        LightingEffect::Spectrum => "spectrum",
        LightingEffect::Breath => "breath",
        LightingEffect::Reactive => "reactive",
        LightingEffect::Starlight => "starlight",
        LightingEffect::Off => "none",
    }
}

/// One entry of the effect picker.
#[derive(Debug, Clone, Copy, PartialEq, Eq, Structural)]
pub struct EffectChoice(pub LightingEffect);

impl EffectChoice {
    /// The entry's text in the picker.
    pub fn label(self) -> (s: &'static str)
        ensures s@ == effect_text(self.0),
    {
        effect_name(self.0)
    }
}

/// The banner's sentence when the daemon did not start.
pub open spec fn could_not_start_text(reason: Seq<char>) -> Seq<char> {
    BANNER_COULD_NOT_START_PREFIX@ + seq![' '] + reason
}

pub fn could_not_start_message(reason: &str) -> (s: String)
    ensures s@ == could_not_start_text(reason@),
{
    let mut out = chars_of(BANNER_COULD_NOT_START_PREFIX);
    out.push(' ');
    let r = chars_of(reason);
    let ghost head = out@;
    let mut i: usize = 0;
    while i < r.len()
        invariant i <= r.len(), out@ == head + r@.take(i as int),
        decreases r.len() - i,
    {
        out.push(r[i]);
        i += 1;
        assert(out@ =~= head + r@.take(i as int));
    }
    assert(r@.take(r.len() as int) =~= r@);
    from_chars(&out)
}

/// The process name a grab-conflict message carries, if it carries one:
/// not the conflict's own sentence, and not a path.
pub open spec fn conflict_name(raw: Seq<char>) -> Option<Seq<char>> {
    let t = trim_seq(raw);
    if t.len() == 0 || t == error_user_message(ErrorCode::GrabConflict) || t.contains('/') {
        None
    } else {
        Some(t)
    }
}

pub fn grab_conflict_name(raw: &str) -> (r: Option<String>)
    ensures
        match conflict_name(raw@) {
            Some(n) => r matches Some(s) && s@ == n,
            None => r is None,
        },
{
    let t = trim_chars(&chars_of(raw));
    if t.len() == 0 {
        return None;
    }
    let sentence = chars_of(ErrorCode::GrabConflict.user_message());
    let mut same = t.len() == sentence.len();
    let mut i: usize = 0;
    while same && i < t.len()
        invariant
            i <= t.len(),
            same ==> t.len() == sentence.len(),
            same == (t@.len() == sentence@.len() && forall|j: int| 0 <= j < i ==> t@[j] == sentence@[j]),
        decreases t.len() - i,
    {
        if t[i] != sentence[i] {
            same = false;
        }
        i += 1;
    }
    if same {
        assert(t@ =~= sentence@);
        return None;
    }
    assert(t@ != sentence@) by {
        if t@ == sentence@ {
            if t@.len() == sentence@.len() {
                let j = choose|j: int| 0 <= j < i && t@[j] != sentence@[j];
            }
        }
    }
    let mut k: usize = 0;
    while k < t.len()
        invariant
            k <= t.len(),
            t@ == trim_seq(raw@),
            t@.len() > 0,
            t@ != error_user_message(ErrorCode::GrabConflict),
            forall|j: int| 0 <= j < k ==> t@[j] != '/',
        decreases t.len() - k,
    {
        if t[k] == '/' {
            assert(t@.contains('/'));
            return None;
        }
        k += 1;
    }
    assert(!t@.contains('/'));
    Some(from_chars(&t))
}

// ---------------------------------------------------------------------
// Keys pressed in the window.

/// What a key press in the window does.
#[derive(Debug, Clone, PartialEq, Eq)]
pub enum KeyCapture {
    SubmitRecord { key: KeyToken, modifiers: Vec<Modifier> },
    SetBinding { key: KeyToken, modifiers: Vec<Modifier> },
    Ignore,
}

/// A key the pad can send becomes the recording while one is open, else
/// the binding while the combo field has focus; anything else is ignored.
pub fn capture_window_key(recording: bool, combo_focused: bool, token: Option<KeyToken>, modifiers: Vec<Modifier>) -> (r: KeyCapture)
    ensures
        match token {
            None => r == KeyCapture::Ignore,
            Some(key) => if recording {
                r matches KeyCapture::SubmitRecord { key: k, modifiers: m } && k == key && m@ == modifiers@
            } else if combo_focused {
                r matches KeyCapture::SetBinding { key: k, modifiers: m } && k == key && m@ == modifiers@
            } else {
                r == KeyCapture::Ignore
            },
        },
{
    let key = match token {
        None => return KeyCapture::Ignore,
        Some(k) => k,
    };
    if recording {
        return KeyCapture::SubmitRecord { key, modifiers };
    }
    if combo_focused {
        return KeyCapture::SetBinding { key, modifiers };
    }
    KeyCapture::Ignore
}

/// A named key of the window system, as far as the combo field cares.
#[derive(Debug, Clone, Copy, PartialEq, Eq, Structural)]
pub enum NamedKey {
    Escape,
    Tab,
    Backspace,
    Enter,
    Space,
    Insert,
    Delete,
    Home,
    End,
    PageUp,
    PageDown,
    ArrowUp,
    ArrowDown,
    ArrowLeft,
    ArrowRight,
    F1,
    F2,
    F3,
    F4,
    F5,
    F6,
    F7,
    F8,
    F9,
    F10,
    F11,
    F12,
    Shift,
    Control,
    Alt,
    Super,
    Meta,
    Other,
}

/// A key press as the window system reports it: the text it types, or a
/// named key.
#[derive(Debug, Clone, PartialEq, Eq)]
pub enum WindowKey {
    Character(String),
    Named(NamedKey),
    Unidentified,
}

// ---------------------------------------------------------------------
// Keys typed into the combo field.

/// The key a typed character stands for, after lowercasing.
pub open spec fn char_token(c: char) -> Option<KeyToken> {
    if c == 'a' { Some(KeyToken::A) } else if c == 'b' { Some(KeyToken::B) } else if c == 'c' { Some(KeyToken::C) } else if c == 'd' { Some(KeyToken::D) } else if c == 'e' { Some(KeyToken::E) } else if c == 'f' { Some(KeyToken::F) } else if c == 'g' { Some(KeyToken::G) } else if c == 'h' { Some(KeyToken::H) } else if c == 'i' { Some(KeyToken::I) } else if c == 'j' { Some(KeyToken::J) } else if c == 'k' { Some(KeyToken::K) } else if c == 'l' { Some(KeyToken::L) } else if c == 'm' { Some(KeyToken::M) } else if c == 'n' { Some(KeyToken::N) } else if c == 'o' { Some(KeyToken::O) } else if c == 'p' { Some(KeyToken::P) } else if c == 'q' { Some(KeyToken::Q) } else if c == 'r' { Some(KeyToken::R) } else if c == 's' { Some(KeyToken::S) } else if c == 't' { Some(KeyToken::T) } else if c == 'u' { Some(KeyToken::U) } else if c == 'v' { Some(KeyToken::V) } else if c == 'w' { Some(KeyToken::W) } else if c == 'x' { Some(KeyToken::X) } else if c == 'y' { Some(KeyToken::Y) } else if c == 'z' { Some(KeyToken::Z) } else if c == '0' { Some(KeyToken::Num0) } else if c == '1' { Some(KeyToken::Num1) } else if c == '2' { Some(KeyToken::Num2) } else if c == '3' { Some(KeyToken::Num3) } else if c == '4' { Some(KeyToken::Num4) } else if c == '5' { Some(KeyToken::Num5) } else if c == '6' { Some(KeyToken::Num6) } else if c == '7' { Some(KeyToken::Num7) } else if c == '8' { Some(KeyToken::Num8) } else if c == '9' { Some(KeyToken::Num9) } else if c == '-' { Some(KeyToken::Minus) } else if c == '=' { Some(KeyToken::Equal) } else if c == '[' { Some(KeyToken::LeftBrace) } else if c == ']' { Some(KeyToken::RightBracket) } else if c == '\\' { Some(KeyToken::Backslash) } else if c == ';' { Some(KeyToken::Semicolon) } else if c == '\'' { Some(KeyToken::Apostrophe) } else if c == '`' { Some(KeyToken::Grave) } else if c == ',' { Some(KeyToken::Comma) } else if c == '.' { Some(KeyToken::Dot) } else if c == '/' { Some(KeyToken::Slash) } else { None }
}

/// The key a named key stands for; the modifiers on their own stand for
/// none.
pub open spec fn named_token(n: NamedKey) -> Option<KeyToken> {
    match n {
        NamedKey::Escape => Some(KeyToken::Escape),
        NamedKey::Tab => Some(KeyToken::Tab),
        NamedKey::Backspace => Some(KeyToken::Backspace),
        NamedKey::Enter => Some(KeyToken::Enter),
        NamedKey::Space => Some(KeyToken::Space),
        NamedKey::Insert => Some(KeyToken::Insert),
        NamedKey::Delete => Some(KeyToken::Delete),
        NamedKey::Home => Some(KeyToken::Home),
        NamedKey::End => Some(KeyToken::End),
        NamedKey::PageUp => Some(KeyToken::PageUp),
        NamedKey::PageDown => Some(KeyToken::PageDown),
        NamedKey::ArrowUp => Some(KeyToken::Up),
        NamedKey::ArrowDown => Some(KeyToken::Down),
        NamedKey::ArrowLeft => Some(KeyToken::Left),
        NamedKey::ArrowRight => Some(KeyToken::Right),
        NamedKey::F1 => Some(KeyToken::F1),
        NamedKey::F2 => Some(KeyToken::F2),
        NamedKey::F3 => Some(KeyToken::F3),
        NamedKey::F4 => Some(KeyToken::F4),
        NamedKey::F5 => Some(KeyToken::F5),
        NamedKey::F6 => Some(KeyToken::F6),
        NamedKey::F7 => Some(KeyToken::F7),
        NamedKey::F8 => Some(KeyToken::F8),
        NamedKey::F9 => Some(KeyToken::F9),
        NamedKey::F10 => Some(KeyToken::F10),
        NamedKey::F11 => Some(KeyToken::F11),
        NamedKey::F12 => Some(KeyToken::F12),
        _ => None,
    }
}

/// The key a press in the combo field binds: a single typed letter,
/// digit or punctuation mark of the main block in either case, or one of
/// the named keys; anything else binds nothing.
pub open spec fn window_key_token(k: WindowKey) -> Option<KeyToken> {
    match k {
        WindowKey::Character(s) => if s@.len() == 1 { char_token(crate::text::ascii_lower(s@[0])) } else { None },
        WindowKey::Named(n) => named_token(n),
        WindowKey::Unidentified => None,
    }
}

fn char_token_exec(c: char) -> (r: Option<KeyToken>)
    ensures r == char_token(c),
{
    match c {
        'a' => Some(KeyToken::A),
        'b' => Some(KeyToken::B),
        'c' => Some(KeyToken::C),
        'd' => Some(KeyToken::D),
        'e' => Some(KeyToken::E),
        'f' => Some(KeyToken::F),
        'g' => Some(KeyToken::G),
        'h' => Some(KeyToken::H),
        'i' => Some(KeyToken::I),
        'j' => Some(KeyToken::J),
        'k' => Some(KeyToken::K),
        'l' => Some(KeyToken::L),
        'm' => Some(KeyToken::M),
        'n' => Some(KeyToken::N),
        'o' => Some(KeyToken::O),
        'p' => Some(KeyToken::P),
        'q' => Some(KeyToken::Q),
        'r' => Some(KeyToken::R),
        's' => Some(KeyToken::S),
        't' => Some(KeyToken::T),
        'u' => Some(KeyToken::U),
        'v' => Some(KeyToken::V),
        'w' => Some(KeyToken::W),
        'x' => Some(KeyToken::X),
        'y' => Some(KeyToken::Y),
        'z' => Some(KeyToken::Z),
        '0' => Some(KeyToken::Num0),
        '1' => Some(KeyToken::Num1),
        '2' => Some(KeyToken::Num2),
        '3' => Some(KeyToken::Num3),
        '4' => Some(KeyToken::Num4),
        '5' => Some(KeyToken::Num5),
        '6' => Some(KeyToken::Num6),
        '7' => Some(KeyToken::Num7),
        '8' => Some(KeyToken::Num8),
        '9' => Some(KeyToken::Num9),
        '-' => Some(KeyToken::Minus),
        '=' => Some(KeyToken::Equal),
        '[' => Some(KeyToken::LeftBrace),
        ']' => Some(KeyToken::RightBracket),
        '\\' => Some(KeyToken::Backslash),
        ';' => Some(KeyToken::Semicolon),
        '\'' => Some(KeyToken::Apostrophe),
        '`' => Some(KeyToken::Grave),
        ',' => Some(KeyToken::Comma),
        '.' => Some(KeyToken::Dot),
        '/' => Some(KeyToken::Slash),
        _ => None,
    }
}

fn named_token_exec(n: NamedKey) -> (r: Option<KeyToken>)
    ensures r == named_token(n),
{
    match n {
        NamedKey::Escape => Some(KeyToken::Escape),
        NamedKey::Tab => Some(KeyToken::Tab),
        NamedKey::Backspace => Some(KeyToken::Backspace),
        NamedKey::Enter => Some(KeyToken::Enter),
        NamedKey::Space => Some(KeyToken::Space),
        NamedKey::Insert => Some(KeyToken::Insert),
        NamedKey::Delete => Some(KeyToken::Delete),
        NamedKey::Home => Some(KeyToken::Home),
        NamedKey::End => Some(KeyToken::End),
        NamedKey::PageUp => Some(KeyToken::PageUp),
        NamedKey::PageDown => Some(KeyToken::PageDown),
        NamedKey::ArrowUp => Some(KeyToken::Up),
        NamedKey::ArrowDown => Some(KeyToken::Down),
        NamedKey::ArrowLeft => Some(KeyToken::Left),
        NamedKey::ArrowRight => Some(KeyToken::Right),
        NamedKey::F1 => Some(KeyToken::F1),
        NamedKey::F2 => Some(KeyToken::F2),
        NamedKey::F3 => Some(KeyToken::F3),
        NamedKey::F4 => Some(KeyToken::F4),
        NamedKey::F5 => Some(KeyToken::F5),
        NamedKey::F6 => Some(KeyToken::F6),
        NamedKey::F7 => Some(KeyToken::F7),
        NamedKey::F8 => Some(KeyToken::F8),
        NamedKey::F9 => Some(KeyToken::F9),
        NamedKey::F10 => Some(KeyToken::F10),
        NamedKey::F11 => Some(KeyToken::F11),
        NamedKey::F12 => Some(KeyToken::F12),
        _ => None,
    }
}

pub fn map_key_token(key: &WindowKey) -> (r: Option<KeyToken>)
    ensures r == window_key_token(*key),
{
    match key {
        WindowKey::Character(s) => {
            let cs = chars_of(s.as_str());
            if cs.len() == 1 {
                char_token_exec(crate::text::ascii_lower_exec(cs[0]))
            } else {
                None
            }
        },
        WindowKey::Named(n) => named_token_exec(*n),
        WindowKey::Unidentified => None,
    }
}

/// Which modifier keys were held with a press.
#[derive(Debug, Clone, Copy, PartialEq, Eq, Structural)]
pub struct ModifierState {
    pub control: bool,
    pub shift: bool,
    pub alt: bool,
    pub logo: bool,
}

/// The held modifiers in the order a combo lists them.
pub open spec fn held_modifiers(m: ModifierState) -> Seq<Modifier> {
    let a = if m.control { seq![Modifier::Ctrl] } else { Seq::empty() };
    let b = if m.shift { a.push(Modifier::Shift) } else { a };
    let c = if m.alt { b.push(Modifier::Alt) } else { b };
    if m.logo { c.push(Modifier::Super) } else { c }
}

pub fn map_modifiers(m: ModifierState) -> (r: Vec<Modifier>)
    ensures r@ == held_modifiers(m),
{
    let mut out: Vec<Modifier> = Vec::new();
    if m.control {
        out.push(Modifier::Ctrl);
    }
    if m.shift {
        out.push(Modifier::Shift);
    }
    if m.alt {
        out.push(Modifier::Alt);
    }
    if m.logo {
        out.push(Modifier::Super);
    }
    assert(out@ =~= held_modifiers(m));
    out
}

/// A modifier pressed on its own never binds anything.
pub proof fn lemma_bare_modifier_binds_nothing(n: NamedKey)
    requires
        n == NamedKey::Shift || n == NamedKey::Control || n == NamedKey::Alt || n == NamedKey::Super
            || n == NamedKey::Meta,
    ensures window_key_token(WindowKey::Named(n)) is None,
{
}

// ---------------------------------------------------------------------
// The inspector.

/// What the hold-repeat toggle shows, and whether it can be changed.
#[derive(Debug, Clone, Copy, PartialEq, Eq, Structural)]
pub struct HoldRepeat {
    pub on: bool,
    pub enabled: bool,
}

/// Only a plain key can repeat. A hold-repeat reads as on, and can be
/// changed only when it wraps a plain key.
pub open spec fn hold_repeat_spec(a: Option<ActionModel>) -> HoldRepeat {
    match a {
        Some(ActionModel::Key { .. }) => HoldRepeat { on: false, enabled: true },
        Some(ActionModel::HoldRepeat { inner, .. }) => HoldRepeat { on: true, enabled: *inner is Key },
        _ => HoldRepeat { on: false, enabled: false },
    }
}

pub fn hold_repeat_state(action: Option<&Action>) -> (r: HoldRepeat)
    ensures r == hold_repeat_spec(opt_model(action)),
{
    match action {
        Some(a) => match a {
            Action::Key { .. } => HoldRepeat { on: false, enabled: true },
            Action::HoldRepeat { inner, rate_ms } => {
                assert(a@ == ActionModel::HoldRepeat { inner: Box::new((**inner)@), rate_ms: *rate_ms });
                let enabled = match &**inner {
                    Action::Key { key, modifiers } => {
                        assert((**inner)@ == ActionModel::Key { key: *key, modifiers: modifiers@ });
                        true
                    },
                    _ => {
                        assert(!((**inner)@ is Key));
                        false
                    },
                };
                HoldRepeat { on: true, enabled }
            },
            _ => HoldRepeat { on: false, enabled: false },
        },
        None => HoldRepeat { on: false, enabled: false },
    }
}

/// A binding that sends more than one action per press: a macro or a
/// hold-repeat. Most games' rules forbid those.
pub open spec fn automates(a: Option<ActionModel>) -> bool {
    a matches Some(x) && (x is Macro || x is HoldRepeat)
}

/// A binding the inspector does not flag as automation sends exactly its
/// own press and leaves nothing behind to repeat or play on: one press,
/// one action.
pub proof fn lemma_unflagged_binding_is_one_action(s: EngineState, key: KeyId, a: ActionModel, now: u64)
    requires
        !automates(Some(a)),
    ensures
        press_spec(s, key, a, now) == (s, action_events(a, KEY_DOWN)),
        release_spec(s, a) == (s, action_events(a, KEY_UP)),
{
}

/// A hold-repeat binding, which the inspector flags, keeps repeating after
/// its press until the key is released.
pub proof fn lemma_flagged_hold_repeat_keeps_going(s: EngineState, key: KeyId, a: ActionModel, now: u64)
    requires
        a is HoldRepeat,
    ensures
        automates(Some(a)),
        press_spec(s, key, a, now).0.hold is Some,
        release_spec(press_spec(s, key, a, now).0, a).0.hold is None,
{
}

pub fn automates_input(action: Option<&Action>) -> (r: bool)
    ensures r == automates(opt_model(action)),
{
    match action {
        Some(a) => match a {
            Action::Macro { .. } | Action::HoldRepeat { .. } => true,
            _ => false,
        },
        None => false,
    }
}

/// The mouse picker's label for a target.
pub open spec fn mouse_chip_label(t: MouseTarget) -> Seq<char> {
    match t {
        MouseTarget::Button { button } => match button {
            MouseButton::Left => MOUSE_LEFT@,
            MouseButton::Right => MOUSE_RIGHT@,
            MouseButton::Middle => MOUSE_MIDDLE@,
            MouseButton::Back => MOUSE_BACK@,
            MouseButton::Forward => MOUSE_FORWARD@,
        },
        MouseTarget::Scroll { scroll } => match scroll {
            ScrollDir::Up => MOUSE_WHEEL_UP@,
            ScrollDir::Down => MOUSE_WHEEL_DOWN@,
        },
    }
}

pub fn mouse_chip_label_str(t: MouseTarget) -> (s: &'static str)
    ensures s@ == mouse_chip_label(t),
{
    match t {
        MouseTarget::Button { button } => match button {
            MouseButton::Left => MOUSE_LEFT,
            MouseButton::Right => MOUSE_RIGHT,
            MouseButton::Middle => MOUSE_MIDDLE,
            MouseButton::Back => MOUSE_BACK,
            MouseButton::Forward => MOUSE_FORWARD,
        },
        MouseTarget::Scroll { scroll } => match scroll {
            ScrollDir::Up => MOUSE_WHEEL_UP,
            ScrollDir::Down => MOUSE_WHEEL_DOWN,
        },
    }
}

/// The readout for a mouse binding, also inside a hold-repeat.
pub open spec fn mouse_readout(a: ActionModel) -> Option<Seq<char>>
    decreases a,
{
    match a {
        ActionModel::Mouse { target } => Some(mouse_chip_label(target)),
        ActionModel::HoldRepeat { inner, .. } => mouse_readout(*inner),
        _ => None,
    }
}

pub open spec fn row_texts(rows: Seq<ProfileRow>) -> Seq<(Seq<char>, Seq<char>)> {
    rows.map_values(|r: ProfileRow| (r.id@, r.name@))
}

/// The name of the first row with this id; the id itself when none has it.
pub open spec fn profile_name_for(rows: Seq<(Seq<char>, Seq<char>)>, id: Seq<char>) -> Seq<char>
    decreases rows.len(),
{
    if rows.len() == 0 {
        id
    } else if rows[0].0 == id {
        rows[0].1
    } else {
        profile_name_for(rows.drop_first(), id)
    }
}

/// The readout for a switch key: the profile it jumps to by name, or by
/// id when that profile is gone; `Next profile` for the cycling key.
pub open spec fn switch_readout(a: ActionModel, rows: Seq<(Seq<char>, Seq<char>)>) -> Option<Seq<char>> {
    match a {
        ActionModel::SwitchProfile { profile } => Some(READOUT_SWITCH_PREFIX@ + profile_name_for(rows, profile)),
        ActionModel::NextProfile => Some(READOUT_NEXT_PROFILE@),
        _ => None,
    }
}

/// The inspector's big readout: the switch text, else the mouse text,
/// else the keycap label; a dash when that is empty.
pub open spec fn readout_text(a: Option<ActionModel>, rows: Seq<(Seq<char>, Seq<char>)>) -> Seq<char> {
    let label = match a {
        None => Seq::empty(),
        Some(x) => match switch_readout(x, rows) {
            Some(t) => t,
            None => match mouse_readout(x) {
                Some(t) => t,
                None => action_label(x),
            },
        },
    };
    if label.len() == 0 { UNBOUND_PLACEHOLDER@ } else { label }
}

fn mouse_readout_exec(a: &Action) -> (r: Option<&'static str>)
    ensures
        match mouse_readout(a@) {
            Some(t) => r matches Some(s) && s@ == t,
            None => r is None,
        },
    decreases a,
{
    match a {
        Action::Mouse { target } => Some(mouse_chip_label_str(*target)),
        Action::HoldRepeat { inner, .. } => mouse_readout_exec(&**inner),
        _ => None,
    }
}

fn profile_name_exec<'a>(rows: &'a [ProfileRow], id: &'a String) -> (r: &'a String)
    ensures r@ == profile_name_for(row_texts(rows@), id@),
{
    let ghost all = row_texts(rows@);
    let mut i: usize = 0;
    assert(all.skip(0) =~= all);
    while i < rows.len()
        invariant
            i <= rows.len(),
            all == row_texts(rows@),
            profile_name_for(all, id@) == profile_name_for(all.skip(i as int), id@),
        decreases rows.len() - i,
    {
        assert(all.skip(i as int)[0] == (rows@[i as int].id@, rows@[i as int].name@));
        assert(all.skip(i as int).drop_first() =~= all.skip(i + 1));
        if str_eq(rows[i].id.as_str(), id.as_str()) {
            return &rows[i].name;
        }
        i += 1;
    }
    id
}

fn concat(a: &str, b: &str) -> (s: String)
    ensures s@ == a@ + b@,
{
    let mut out = chars_of(a);
    let tail = chars_of(b);
    let ghost head = out@;
    let mut i: usize = 0;
    while i < tail.len()
        invariant i <= tail.len(), out@ == head + tail@.take(i as int),
        decreases tail.len() - i,
    {
        out.push(tail[i]);
        i += 1;
        assert(out@ =~= head + tail@.take(i as int));
    }
    assert(tail@.take(tail.len() as int) =~= tail@);
    from_chars(&out)
}

pub fn bind_readout(action: Option<&Action>, profiles: &[ProfileRow]) -> (s: String)
    ensures s@ == readout_text(opt_model(action), row_texts(profiles@)),
{
    let label = match action {
        None => String::new(),
        Some(a) => match a {
            Action::SwitchProfile { profile } => {
                let name = profile_name_exec(profiles, profile);
                concat(READOUT_SWITCH_PREFIX, name.as_str())
            },
            Action::NextProfile => READOUT_NEXT_PROFILE.to_owned(),
            _ => match mouse_readout_exec(a) {
                Some(t) => t.to_owned(),
                None => bind_label(Some(a)),
            },
        },
    };
    if label.as_str().is_empty() {
        UNBOUND_PLACEHOLDER.to_owned()
    } else {
        label
    }
}

/// An unbound key reads as a dash, never as an empty box.
pub proof fn lemma_readout_never_empty(a: Option<ActionModel>, rows: Seq<(Seq<char>, Seq<char>)>)
    ensures readout_text(a, rows).len() > 0,
{
    reveal_strlit("\u{2014}");
}

// ---------------------------------------------------------------------
// The header menu and window controls.

/// One row of the header menu.
#[derive(Debug, Clone, Copy, PartialEq, Eq, Structural)]
pub enum MenuEntry {
    FixPermissions,
    Quit,
}

impl MenuEntry {
    pub fn label(self) -> (s: &'static str)
        ensures s@ == (match self {
            MenuEntry::FixPermissions => BUTTON_FIX_PERMISSIONS@,
            MenuEntry::Quit => BUTTON_QUIT@,
        }),
    {
        match self {
            MenuEntry::FixPermissions => BUTTON_FIX_PERMISSIONS,
            MenuEntry::Quit => BUTTON_QUIT,
        }
    }
}

/// The menu offers the repair only while the permission banner shows, and
/// always ends with quit.
pub fn menu_entries_for(permission_banner: bool) -> (r: Vec<MenuEntry>)
    ensures r@ == if permission_banner { seq![MenuEntry::FixPermissions, MenuEntry::Quit] } else { seq![MenuEntry::Quit] },
{
    let mut entries: Vec<MenuEntry> = Vec::new();
    if permission_banner {
        entries.push(MenuEntry::FixPermissions);
    }
    entries.push(MenuEntry::Quit);
    assert(entries@ =~= if permission_banner { seq![MenuEntry::FixPermissions, MenuEntry::Quit] } else { seq![MenuEntry::Quit] });
    entries
}

/// The glyphs on the window's own controls.
#[derive(Debug, Clone, Copy, PartialEq, Eq, Structural)]
pub enum WindowGlyph {
    /// Minimize: a chevron pointing down.
    ChevronDown,
    /// Maximize and restore: the same chevron pointing up.
    ChevronUp,
    /// Close.
    Cross,
}

/// The number printed on a face key: its place among the face keys, two
/// digits, or `20` for the thumb key; other keys have none.
pub open spec fn key_number_text(id: KeyId) -> Option<Seq<char>> {
    let i = key_index(id);
    if i < 20 {
        Some(seq![crate::text::digit_char((i + 1) / 10), crate::text::digit_char((i + 1) % 10)])
    } else {
        None
    }
}

pub fn key_number(id: KeyId) -> (r: Option<String>)
    ensures
        match key_number_text(id) {
            Some(t) => r matches Some(s) && s@ == t,
            None => r is None,
        },
{
    let i = id.index();
    if i < 20 {
        let n = (i + 1) as u8;
        let mut out: Vec<char> = Vec::new();
        out.push((48u8 + n / 10) as char);
        out.push((48u8 + n % 10) as char);
        assert(out@ =~= key_number_text(id)->0);
        Some(from_chars(&out))
    } else {
        None
    }
}

} // verus!
