//! What the editor writes on each keycap and in its inspector.

use vstd::prelude::*;
use crate::pack::{is_shipped, shipped_ids, SHIPPED_IDS};
use crate::text::{chars_of, decimal, from_chars, push_decimal, str_eq};
use crate::types::{
    key_index, lemma_key_index_injective, Action, ActionModel, KeyId, KeyToken, Modifier,
    MouseButton, MouseTarget, ScrollDir,
};

verus! {

/// Keys on each of the four face rows; the twentieth key is the thumb key,
/// which sits below them.
pub const GRID_ROW_LENGTHS: [usize; 4] = [5, 5, 5, 4];
pub const GRID_KEY_COUNT: usize = 19;

/// The inspector heading for a key, such as `Key 07` or `Thumb north`.
pub open spec fn display_name(id: KeyId) -> Seq<char> {
    match id {
        KeyId::Kp01 => "Key 01"@,
        KeyId::Kp02 => "Key 02"@,
        KeyId::Kp03 => "Key 03"@,
        KeyId::Kp04 => "Key 04"@,
        KeyId::Kp05 => "Key 05"@,
        KeyId::Kp06 => "Key 06"@,
        KeyId::Kp07 => "Key 07"@,
        KeyId::Kp08 => "Key 08"@,
        KeyId::Kp09 => "Key 09"@,
        KeyId::Kp10 => "Key 10"@,
        KeyId::Kp11 => "Key 11"@,
        KeyId::Kp12 => "Key 12"@,
        KeyId::Kp13 => "Key 13"@,
        KeyId::Kp14 => "Key 14"@,
        KeyId::Kp15 => "Key 15"@,
        KeyId::Kp16 => "Key 16"@,
        KeyId::Kp17 => "Key 17"@,
        KeyId::Kp18 => "Key 18"@,
        KeyId::Kp19 => "Key 19"@,
        KeyId::Kp20 => "Key 20"@,
        KeyId::WheelUp => "Wheel up"@,
        KeyId::WheelDown => "Wheel down"@,
        KeyId::WheelClick => "Wheel click"@,
        KeyId::Mode => "Mode"@,
        KeyId::ThumbN => "Thumb north"@,
        KeyId::ThumbNe => "Thumb north-east"@,
        KeyId::ThumbE => "Thumb east"@,
        KeyId::ThumbSe => "Thumb south-east"@,
        KeyId::ThumbS => "Thumb south"@,
        KeyId::ThumbSw => "Thumb south-west"@,
        KeyId::ThumbW => "Thumb west"@,
        KeyId::ThumbNw => "Thumb north-west"@,
        KeyId::AnalogUp => "Analog up"@,
        KeyId::AnalogDown => "Analog down"@,
        KeyId::AnalogLeft => "Analog left"@,
        KeyId::AnalogRight => "Analog right"@,
    }
}

pub fn key_display_name(id: KeyId) -> (s: String)
    ensures s@ == display_name(id),
{
    match id {
        KeyId::Kp01 => "Key 01".to_owned(),
        KeyId::Kp02 => "Key 02".to_owned(),
        KeyId::Kp03 => "Key 03".to_owned(),
        KeyId::Kp04 => "Key 04".to_owned(),
        KeyId::Kp05 => "Key 05".to_owned(),
        KeyId::Kp06 => "Key 06".to_owned(),
        KeyId::Kp07 => "Key 07".to_owned(),
        KeyId::Kp08 => "Key 08".to_owned(),
        KeyId::Kp09 => "Key 09".to_owned(),
        KeyId::Kp10 => "Key 10".to_owned(),
        KeyId::Kp11 => "Key 11".to_owned(),
        KeyId::Kp12 => "Key 12".to_owned(),
        KeyId::Kp13 => "Key 13".to_owned(),
        KeyId::Kp14 => "Key 14".to_owned(),
        KeyId::Kp15 => "Key 15".to_owned(),
        KeyId::Kp16 => "Key 16".to_owned(),
        KeyId::Kp17 => "Key 17".to_owned(),
        KeyId::Kp18 => "Key 18".to_owned(),
        KeyId::Kp19 => "Key 19".to_owned(),
        KeyId::Kp20 => "Key 20".to_owned(),
        KeyId::WheelUp => "Wheel up".to_owned(),
        KeyId::WheelDown => "Wheel down".to_owned(),
        KeyId::WheelClick => "Wheel click".to_owned(),
        KeyId::Mode => "Mode".to_owned(),
        KeyId::ThumbN => "Thumb north".to_owned(),
        KeyId::ThumbNe => "Thumb north-east".to_owned(),
        KeyId::ThumbE => "Thumb east".to_owned(),
        KeyId::ThumbSe => "Thumb south-east".to_owned(),
        KeyId::ThumbS => "Thumb south".to_owned(),
        KeyId::ThumbSw => "Thumb south-west".to_owned(),
        KeyId::ThumbW => "Thumb west".to_owned(),
        KeyId::ThumbNw => "Thumb north-west".to_owned(),
        KeyId::AnalogUp => "Analog up".to_owned(),
        KeyId::AnalogDown => "Analog down".to_owned(),
        KeyId::AnalogLeft => "Analog left".to_owned(),
        KeyId::AnalogRight => "Analog right".to_owned(),
    }
}

/// A grid key's place: `row R · key K`, counting from one.
pub open spec fn grid_position(i: int) -> Seq<char> {
    "row "@ + decimal((i / 5 + 1) as nat) + " \u{b7} key "@ + decimal((i % 5 + 1) as nat)
}

/// Where a key sits on the device, shown under the inspector heading.
pub open spec fn position_text(id: KeyId) -> Seq<char> {
    if id == KeyId::Kp20 {
        "thumb key"@
    } else if key_index(id) < GRID_KEY_COUNT {
        grid_position(key_index(id))
    } else {
        match id {
            KeyId::WheelUp | KeyId::WheelDown | KeyId::WheelClick => "wheel"@,
            KeyId::Mode => "wheel column"@,
            KeyId::AnalogUp | KeyId::AnalogDown | KeyId::AnalogLeft | KeyId::AnalogRight => "analog stick"@,
            _ => "thumb pad"@,
        }
    }
}

fn push_str(out: &mut Vec<char>, s: &str)
    ensures final(out)@ == old(out)@ + s@,
{
    let cs = chars_of(s);
    let mut i: usize = 0;
    while i < cs.len()
        invariant
            i <= cs.len(),
            cs@ == s@,
            out@ == old(out)@ + cs@.take(i as int),
        decreases cs.len() - i,
    {
        out.push(cs[i]);
        i += 1;
        assert(out@ =~= old(out)@ + cs@.take(i as int));
    }
    assert(cs@.take(cs.len() as int) =~= cs@);
}

pub fn key_position_text(id: KeyId) -> (s: String)
    ensures s@ == position_text(id),
{
    if id == KeyId::Kp20 {
        return "thumb key".to_owned();
    }
    let index = id.index();
    if index < GRID_KEY_COUNT {
        let mut remaining: usize = index;
        let mut row: usize = 0;
        while row < 4
            invariant
                row <= 4,
                index < GRID_KEY_COUNT,
                index == key_index(id),
                row < 4 ==> remaining + 5 * row == index,
                row < 4 ==> remaining >= 0,
                row == 4 ==> false,
            decreases 4 - row,
        {
            let length = GRID_ROW_LENGTHS[row];
            if remaining < length {
                assert(row == index / 5 && remaining == index % 5);
                let mut out: Vec<char> = Vec::new();
                push_str(&mut out, "row ");
                push_decimal(&mut out, (row + 1) as u64);
                push_str(&mut out, " \u{b7} key ");
                push_decimal(&mut out, (remaining + 1) as u64);
                assert(out@ =~= grid_position(index as int));
                return from_chars(&out);
            }
            remaining -= length;
            row += 1;
        }
    }
    match id {
        KeyId::WheelUp | KeyId::WheelDown | KeyId::WheelClick => "wheel".to_owned(),
        KeyId::Mode => "wheel column".to_owned(),
        KeyId::AnalogUp | KeyId::AnalogDown | KeyId::AnalogLeft | KeyId::AnalogRight => "analog stick".to_owned(),
        _ => "thumb pad".to_owned(),
    }
}

pub open spec fn modifier_label(m: Modifier) -> Seq<char> {
    match m {
        Modifier::Ctrl => "Ctrl"@,
        Modifier::Shift => "Shift"@,
        Modifier::Alt => "Alt"@,
        Modifier::Super => "Super"@,
        Modifier::CtrlR => "CtrlR"@,
        Modifier::ShiftR => "ShiftR"@,
        Modifier::AltR => "AltR"@,
        Modifier::SuperR => "SuperR"@,
    }
}

fn modifier_label_str(m: Modifier) -> (s: &'static str)
    ensures s@ == modifier_label(m),
{
    match m {
        Modifier::Ctrl => "Ctrl",
        Modifier::Shift => "Shift",
        Modifier::Alt => "Alt",
        Modifier::Super => "Super",
        Modifier::CtrlR => "CtrlR",
        Modifier::ShiftR => "ShiftR",
        Modifier::AltR => "AltR",
        Modifier::SuperR => "SuperR",
    }
}

/// A key's keycap text: letters and digits as themselves, the bare
/// modifier keys as the modifiers read, anything else by its token name.
pub open spec fn token_label(t: KeyToken) -> Seq<char> {
    match t {
        KeyToken::A => "A"@,
        KeyToken::B => "B"@,
        KeyToken::C => "C"@,
        KeyToken::D => "D"@,
        KeyToken::E => "E"@,
        KeyToken::F => "F"@,
        KeyToken::G => "G"@,
        KeyToken::H => "H"@,
        KeyToken::I => "I"@,
        KeyToken::J => "J"@,
        KeyToken::K => "K"@,
        KeyToken::L => "L"@,
        KeyToken::M => "M"@,
        KeyToken::N => "N"@,
        KeyToken::O => "O"@,
        KeyToken::P => "P"@,
        KeyToken::Q => "Q"@,
        KeyToken::R => "R"@,
        KeyToken::S => "S"@,
        KeyToken::T => "T"@,
        KeyToken::U => "U"@,
        KeyToken::V => "V"@,
        KeyToken::W => "W"@,
        KeyToken::X => "X"@,
        KeyToken::Y => "Y"@,
        KeyToken::Z => "Z"@,
        KeyToken::Num0 => "0"@,
        KeyToken::Num1 => "1"@,
        KeyToken::Num2 => "2"@,
        KeyToken::Num3 => "3"@,
        KeyToken::Num4 => "4"@,
        KeyToken::Num5 => "5"@,
        KeyToken::Num6 => "6"@,
        KeyToken::Num7 => "7"@,
        KeyToken::Num8 => "8"@,
        KeyToken::Num9 => "9"@,
        KeyToken::F1 => "F1"@,
        KeyToken::F2 => "F2"@,
        KeyToken::F3 => "F3"@,
        KeyToken::F4 => "F4"@,
        KeyToken::F5 => "F5"@,
        KeyToken::F6 => "F6"@,
        KeyToken::F7 => "F7"@,
        KeyToken::F8 => "F8"@,
        KeyToken::F9 => "F9"@,
        KeyToken::F10 => "F10"@,
        KeyToken::F11 => "F11"@,
        KeyToken::F12 => "F12"@,
        KeyToken::Escape => "Escape"@,
        KeyToken::Tab => "Tab"@,
        KeyToken::Backspace => "Backspace"@,
        KeyToken::Enter => "Enter"@,
        KeyToken::Space => "Space"@,
        KeyToken::Insert => "Insert"@,
        KeyToken::Delete => "Delete"@,
        KeyToken::Home => "Home"@,
        KeyToken::End => "End"@,
        KeyToken::PageUp => "PageUp"@,
        KeyToken::PageDown => "PageDown"@,
        KeyToken::Up => "Up"@,
        KeyToken::Down => "Down"@,
        KeyToken::Left => "Left"@,
        KeyToken::Right => "Right"@,
        KeyToken::Minus => "Minus"@,
        KeyToken::Equal => "Equal"@,
        KeyToken::LeftBrace => "LeftBrace"@,
        KeyToken::RightBracket => "RightBracket"@,
        KeyToken::Backslash => "Backslash"@,
        KeyToken::Semicolon => "Semicolon"@,
        KeyToken::Apostrophe => "Apostrophe"@,
        KeyToken::Grave => "Grave"@,
        KeyToken::Comma => "Comma"@,
        KeyToken::Dot => "Dot"@,
        KeyToken::Slash => "Slash"@,
        KeyToken::NumPad0 => "NumPad0"@,
        KeyToken::NumPad1 => "NumPad1"@,
        KeyToken::NumPad2 => "NumPad2"@,
        KeyToken::NumPad3 => "NumPad3"@,
        KeyToken::NumPad4 => "NumPad4"@,
        KeyToken::NumPad5 => "NumPad5"@,
        KeyToken::NumPad6 => "NumPad6"@,
        KeyToken::NumPad7 => "NumPad7"@,
        KeyToken::NumPad8 => "NumPad8"@,
        KeyToken::NumPad9 => "NumPad9"@,
        KeyToken::NumEnter => "NumEnter"@,
        KeyToken::NumPlus => "NumPlus"@,
        KeyToken::NumMinus => "NumMinus"@,
        KeyToken::NumSlash => "NumSlash"@,
        KeyToken::NumStar => "NumStar"@,
        KeyToken::NumDot => "NumDot"@,
        KeyToken::PrintScreen => "PrintScreen"@,
        KeyToken::ScrollLock => "ScrollLock"@,
        KeyToken::Pause => "Pause"@,
        KeyToken::CapsLock => "Caps"@,
        KeyToken::NumLock => "NumLock"@,
        KeyToken::VolumeUp => "VolumeUp"@,
        KeyToken::VolumeDown => "VolumeDown"@,
        KeyToken::Mute => "Mute"@,
        KeyToken::LeftShift => "Shift"@,
        KeyToken::LeftCtrl => "Ctrl"@,
        KeyToken::LeftAlt => "Alt"@,
    }
}

fn token_label_str(t: KeyToken) -> (s: &'static str)
    ensures s@ == token_label(t),
{
    match t {
        KeyToken::A => "A",
        KeyToken::B => "B",
        KeyToken::C => "C",
        KeyToken::D => "D",
        KeyToken::E => "E",
        KeyToken::F => "F",
        KeyToken::G => "G",
        KeyToken::H => "H",
        KeyToken::I => "I",
        KeyToken::J => "J",
        KeyToken::K => "K",
        KeyToken::L => "L",
        KeyToken::M => "M",
        KeyToken::N => "N",
        KeyToken::O => "O",
        KeyToken::P => "P",
        KeyToken::Q => "Q",
        KeyToken::R => "R",
        KeyToken::S => "S",
        KeyToken::T => "T",
        KeyToken::U => "U",
        KeyToken::V => "V",
        KeyToken::W => "W",
        KeyToken::X => "X",
        KeyToken::Y => "Y",
        KeyToken::Z => "Z",
        KeyToken::Num0 => "0",
        KeyToken::Num1 => "1",
        KeyToken::Num2 => "2",
        KeyToken::Num3 => "3",
        KeyToken::Num4 => "4",
        KeyToken::Num5 => "5",
        KeyToken::Num6 => "6",
        KeyToken::Num7 => "7",
        KeyToken::Num8 => "8",
        KeyToken::Num9 => "9",
        KeyToken::F1 => "F1",
        KeyToken::F2 => "F2",
        KeyToken::F3 => "F3",
        KeyToken::F4 => "F4",
        KeyToken::F5 => "F5",
        KeyToken::F6 => "F6",
        KeyToken::F7 => "F7",
        KeyToken::F8 => "F8",
        KeyToken::F9 => "F9",
        KeyToken::F10 => "F10",
        KeyToken::F11 => "F11",
        KeyToken::F12 => "F12",
        KeyToken::Escape => "Escape",
        KeyToken::Tab => "Tab",
        KeyToken::Backspace => "Backspace",
        KeyToken::Enter => "Enter",
        KeyToken::Space => "Space",
        KeyToken::Insert => "Insert",
        KeyToken::Delete => "Delete",
        KeyToken::Home => "Home",
        KeyToken::End => "End",
        KeyToken::PageUp => "PageUp",
        KeyToken::PageDown => "PageDown",
        KeyToken::Up => "Up",
        KeyToken::Down => "Down",
        KeyToken::Left => "Left",
        KeyToken::Right => "Right",
        KeyToken::Minus => "Minus",
        KeyToken::Equal => "Equal",
        KeyToken::LeftBrace => "LeftBrace",
        KeyToken::RightBracket => "RightBracket",
        KeyToken::Backslash => "Backslash",
        KeyToken::Semicolon => "Semicolon",
        KeyToken::Apostrophe => "Apostrophe",
        KeyToken::Grave => "Grave",
        KeyToken::Comma => "Comma",
        KeyToken::Dot => "Dot",
        KeyToken::Slash => "Slash",
        KeyToken::NumPad0 => "NumPad0",
        KeyToken::NumPad1 => "NumPad1",
        KeyToken::NumPad2 => "NumPad2",
        KeyToken::NumPad3 => "NumPad3",
        KeyToken::NumPad4 => "NumPad4",
        KeyToken::NumPad5 => "NumPad5",
        KeyToken::NumPad6 => "NumPad6",
        KeyToken::NumPad7 => "NumPad7",
        KeyToken::NumPad8 => "NumPad8",
        KeyToken::NumPad9 => "NumPad9",
        KeyToken::NumEnter => "NumEnter",
        KeyToken::NumPlus => "NumPlus",
        KeyToken::NumMinus => "NumMinus",
        KeyToken::NumSlash => "NumSlash",
        KeyToken::NumStar => "NumStar",
        KeyToken::NumDot => "NumDot",
        KeyToken::PrintScreen => "PrintScreen",
        KeyToken::ScrollLock => "ScrollLock",
        KeyToken::Pause => "Pause",
        KeyToken::CapsLock => "Caps",
        KeyToken::NumLock => "NumLock",
        KeyToken::VolumeUp => "VolumeUp",
        KeyToken::VolumeDown => "VolumeDown",
        KeyToken::Mute => "Mute",
        KeyToken::LeftShift => "Shift",
        KeyToken::LeftCtrl => "Ctrl",
        KeyToken::LeftAlt => "Alt",
    }
}

pub open spec fn mouse_label(target: MouseTarget) -> Seq<char> {
    match target {
        MouseTarget::Button { button } => match button {
            MouseButton::Left => "M1"@,
            MouseButton::Right => "M2"@,
            MouseButton::Middle => "M3"@,
            MouseButton::Back => "M4"@,
            MouseButton::Forward => "M5"@,
        },
        MouseTarget::Scroll { scroll } => match scroll {
            ScrollDir::Up => "Wheel+"@,
            ScrollDir::Down => "Wheel-"@,
        },
    }
}

fn mouse_label_str(target: MouseTarget) -> (s: &'static str)
    ensures s@ == mouse_label(target),
{
    match target {
        MouseTarget::Button { button } => match button {
            MouseButton::Left => "M1",
            MouseButton::Right => "M2",
            MouseButton::Middle => "M3",
            MouseButton::Back => "M4",
            MouseButton::Forward => "M5",
        },
        MouseTarget::Scroll { scroll } => match scroll {
            ScrollDir::Up => "Wheel+",
            ScrollDir::Down => "Wheel-",
        },
    }
}

/// Each modifier's label followed by `+`, in order.
pub open spec fn modifier_prefix(mods: Seq<Modifier>) -> Seq<char>
    decreases mods.len(),
{
    if mods.len() == 0 {
        Seq::empty()
    } else {
        modifier_prefix(mods.drop_last()) + modifier_label(mods.last()) + "+"@
    }
}

/// A combo's label: its modifiers and its key, joined by `+`.
pub open spec fn combo_label(key: KeyToken, mods: Seq<Modifier>) -> Seq<char> {
    modifier_prefix(mods) + token_label(key)
}

/// What a keycap shows for an action: a combo, `Macro`, a mouse label,
/// `Profile` or `Next`; a hold-repeat key shows the action it repeats.
pub open spec fn action_label(a: ActionModel) -> Seq<char>
    decreases a,
{
    match a {
        ActionModel::Key { key, modifiers } => combo_label(key, modifiers),
        ActionModel::Macro { .. } => "Macro"@,
        ActionModel::Mouse { target } => mouse_label(target),
        ActionModel::SwitchProfile { .. } => "Profile"@,
        ActionModel::NextProfile => "Next"@,
        ActionModel::HoldRepeat { inner, .. } => action_label(*inner),
    }
}

/// What a keycap shows for its binding; nothing when unbound.
pub open spec fn bind_label_spec(a: Option<ActionModel>) -> Seq<char> {
    match a {
        None => Seq::empty(),
        Some(a) => action_label(a),
    }
}

pub open spec fn opt_model(a: Option<&Action>) -> Option<ActionModel> {
    match a {
        Some(a) => Some(a@),
        None => None,
    }
}

fn key_combo_label(key: KeyToken, modifiers: &Vec<Modifier>) -> (s: String)
    ensures s@ == combo_label(key, modifiers@),
{
    let mut out: Vec<char> = Vec::new();
    let mut i: usize = 0;
    while i < modifiers.len()
        invariant
            i <= modifiers.len(),
            out@ == modifier_prefix(modifiers@.take(i as int)),
        decreases modifiers.len() - i,
    {
        push_str(&mut out, modifier_label_str(modifiers[i]));
        push_str(&mut out, "+");
        assert(modifiers@.take(i + 1).drop_last() =~= modifiers@.take(i as int));
        i += 1;
    }
    assert(modifiers@.take(modifiers.len() as int) =~= modifiers@);
    push_str(&mut out, token_label_str(key));
    from_chars(&out)
}

fn action_label_exec(a: &Action) -> (s: String)
    ensures s@ == action_label(a@),
    decreases a,
{
    match a {
        Action::Key { key, modifiers } => key_combo_label(*key, modifiers),
        Action::Macro { .. } => "Macro".to_owned(),
        Action::Mouse { target } => mouse_label_str(*target).to_owned(),
        Action::SwitchProfile { .. } => "Profile".to_owned(),
        Action::NextProfile => "Next".to_owned(),
        Action::HoldRepeat { inner, .. } => action_label_exec(&**inner),
    }
}

pub fn bind_label(action: Option<&Action>) -> (s: String)
    ensures s@ == bind_label_spec(opt_model(action)),
{
    match action {
        None => String::new(),
        Some(a) => action_label_exec(a),
    }
}

/// The ids as text.
pub open spec fn id_texts(ids: Seq<String>) -> Seq<Seq<char>> {
    ids.map_values(|s: String| s@)
}

/// The shipped ids, in pack order, that occur among `ids`.
pub open spec fn present_shipped(shipped: Seq<Seq<char>>, ids: Seq<Seq<char>>) -> Seq<Seq<char>>
    decreases shipped.len(),
{
    if shipped.len() == 0 {
        Seq::empty()
    } else {
        let rest = present_shipped(shipped.drop_last(), ids);
        if ids.contains(shipped.last()) { rest.push(shipped.last()) } else { rest }
    }
}

/// The ids that are not shipped, in their own order.
pub open spec fn custom_ids(ids: Seq<Seq<char>>) -> Seq<Seq<char>>
    decreases ids.len(),
{
    if ids.len() == 0 {
        Seq::empty()
    } else {
        let rest = custom_ids(ids.drop_last());
        if shipped_ids().contains(ids.last()) { rest } else { rest.push(ids.last()) }
    }
}

fn contains_id(ids: &[String], id: &str) -> (r: bool)
    ensures r == id_texts(ids@).contains(id@),
{
    let mut i: usize = 0;
    while i < ids.len()
        invariant
            i <= ids.len(),
            forall|j: int| 0 <= j < i ==> id_texts(ids@)[j] != id@,
        decreases ids.len() - i,
    {
        if str_eq(ids[i].as_str(), id) {
            assert(id_texts(ids@)[i as int] == id@);
            return true;
        }
        i += 1;
    }
    false
}

/// The sidebar's order: the shipped profiles that exist, in pack order,
/// then the user's own, in the order given.
pub fn profile_row_order(ids: &[String]) -> (r: Vec<String>)
    ensures id_texts(r@) == present_shipped(shipped_ids(), id_texts(ids@)) + custom_ids(id_texts(ids@)),
{
    let ghost all = id_texts(ids@);
    let mut ordered: Vec<String> = Vec::new();
    let mut i: usize = 0;
    assert(shipped_ids().take(0) =~= Seq::<Seq<char>>::empty());
    while i < 16
        invariant
            i <= 16,
            all == id_texts(ids@),
            id_texts(ordered@) == present_shipped(shipped_ids().take(i as int), all),
        decreases 16 - i,
    {
        let shipped = SHIPPED_IDS[i];
        assert(shipped_ids().take(i + 1).drop_last() =~= shipped_ids().take(i as int));
        assert(shipped_ids().take(i + 1).last() == shipped@);
        if contains_id(ids, shipped) {
            let ghost before = ordered@;
            ordered.push(shipped.to_owned());
            assert(id_texts(ordered@) =~= id_texts(before).push(shipped@));
        }
        i += 1;
    }
    assert(shipped_ids().take(16) =~= shipped_ids());
    let ghost head = id_texts(ordered@);
    let mut j: usize = 0;
    assert(custom_ids(all.take(0)) =~= Seq::<Seq<char>>::empty());
    while j < ids.len()
        invariant
            j <= ids.len(),
            all == id_texts(ids@),
            id_texts(ordered@) == head + custom_ids(all.take(j as int)),
        decreases ids.len() - j,
    {
        assert(all.take(j + 1).drop_last() =~= all.take(j as int));
        assert(all.take(j + 1).last() == ids@[j as int]@);
        if !is_shipped(ids[j].as_str()) {
            let ghost before = ordered@;
            ordered.push(ids[j].clone());
            assert(id_texts(ordered@) =~= id_texts(before).push(ids@[j as int]@));
            assert(id_texts(ordered@) =~= head + custom_ids(all.take(j + 1)));
        }
        j += 1;
    }
    assert(all.take(ids.len() as int) =~= all);
    ordered
}

// ---------------------------------------------------------------------
// Laws of the labels.

/// The bare modifier keys read on a keycap as the modifiers do.
pub proof fn lemma_bare_modifier_labels()
    ensures
        token_label(KeyToken::LeftShift) == modifier_label(Modifier::Shift),
        token_label(KeyToken::LeftCtrl) == modifier_label(Modifier::Ctrl),
        token_label(KeyToken::LeftAlt) == modifier_label(Modifier::Alt),
{
}

/// A few letters of a heading: its length and the places where the
/// headings differ.
spec fn name_sig(s: Seq<char>) -> (nat, char, char, char, char, char, char) {
    (s.len(), s[0], s[4], s[5], s[6], s[7], s[12])
}

/// No two keys share an inspector heading.
pub proof fn lemma_display_names_distinct(a: KeyId, b: KeyId)
    requires a != b,
    ensures display_name(a) != display_name(b),
{
    reveal_strlit("Key 01");
    reveal_strlit("Key 02");
    reveal_strlit("Key 03");
    reveal_strlit("Key 04");
    reveal_strlit("Key 05");
    reveal_strlit("Key 06");
    reveal_strlit("Key 07");
    reveal_strlit("Key 08");
    reveal_strlit("Key 09");
    reveal_strlit("Key 10");
    reveal_strlit("Key 11");
    reveal_strlit("Key 12");
    reveal_strlit("Key 13");
    reveal_strlit("Key 14");
    reveal_strlit("Key 15");
    reveal_strlit("Key 16");
    reveal_strlit("Key 17");
    reveal_strlit("Key 18");
    reveal_strlit("Key 19");
    reveal_strlit("Key 20");
    reveal_strlit("Wheel up");
    reveal_strlit("Wheel down");
    reveal_strlit("Wheel click");
    reveal_strlit("Mode");
    reveal_strlit("Thumb north");
    reveal_strlit("Thumb north-east");
    reveal_strlit("Thumb east");
    reveal_strlit("Thumb south-east");
    reveal_strlit("Thumb south");
    reveal_strlit("Thumb south-west");
    reveal_strlit("Thumb west");
    reveal_strlit("Thumb north-west");
    reveal_strlit("Analog up");
    reveal_strlit("Analog down");
    reveal_strlit("Analog left");
    reveal_strlit("Analog right");
    if display_name(a) == display_name(b) {
        assert(name_sig(display_name(a)) == name_sig(display_name(b)));
    }
}

/// Every key has a heading and a place to show under it.
pub proof fn lemma_every_key_is_named_and_placed(k: KeyId)
    ensures
        display_name(k).len() > 0,
        position_text(k).len() > 0,
{
    reveal_strlit("Key 01");
    reveal_strlit("Key 02");
    reveal_strlit("Key 03");
    reveal_strlit("Key 04");
    reveal_strlit("Key 05");
    reveal_strlit("Key 06");
    reveal_strlit("Key 07");
    reveal_strlit("Key 08");
    reveal_strlit("Key 09");
    reveal_strlit("Key 10");
    reveal_strlit("Key 11");
    reveal_strlit("Key 12");
    reveal_strlit("Key 13");
    reveal_strlit("Key 14");
    reveal_strlit("Key 15");
    reveal_strlit("Key 16");
    reveal_strlit("Key 17");
    reveal_strlit("Key 18");
    reveal_strlit("Key 19");
    reveal_strlit("Key 20");
    reveal_strlit("Wheel up");
    reveal_strlit("Wheel down");
    reveal_strlit("Wheel click");
    reveal_strlit("Mode");
    reveal_strlit("Thumb north");
    reveal_strlit("Thumb north-east");
    reveal_strlit("Thumb east");
    reveal_strlit("Thumb south-east");
    reveal_strlit("Thumb south");
    reveal_strlit("Thumb south-west");
    reveal_strlit("Thumb west");
    reveal_strlit("Thumb north-west");
    reveal_strlit("Analog up");
    reveal_strlit("Analog down");
    reveal_strlit("Analog left");
    reveal_strlit("Analog right");
    reveal_strlit("thumb key");
    reveal_strlit("row ");
    reveal_strlit("wheel");
    reveal_strlit("wheel column");
    reveal_strlit("analog stick");
    reveal_strlit("thumb pad");
}

/// The row lengths cover the grid: the face holds nineteen keys in rows,
/// and the twentieth is the thumb key.
pub proof fn lemma_rows_cover_grid()
    ensures
        GRID_ROW_LENGTHS@[0] + GRID_ROW_LENGTHS@[1] + GRID_ROW_LENGTHS@[2] + GRID_ROW_LENGTHS@[3] == GRID_KEY_COUNT,
        position_text(KeyId::Kp20) == "thumb key"@,
{
}

} // verus!

