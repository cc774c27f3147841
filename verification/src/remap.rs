//! The remap engine: turns what the keypad sends into what the virtual
//! keyboard and mouse send, following the applied profile.

use vstd::prelude::*;
use crate::constants::{
    ANALOG_PRESS_TENTHS, ANALOG_RELEASE_TENTHS, TAP_HOLD_MS, USB_PID_TARTARUS_PRO,
    USB_PID_TARTARUS_V2, USB_VID_RAZER,
};
use crate::keymap::{
    button_code, decode_hat, hat_direction, keypad_table, modifier_code, modifier_to_evdev,
    mouse_button_to_evdev, table_lookup, token_code, token_to_evdev, KeyMap, ABS_HAT0X,
    ABS_HAT0Y, ABS_X, ABS_Y, ANALOG_AXIS_CENTER, ANALOG_AXIS_MAX, EV_ABS, EV_KEY, EV_REL,
    REL_WHEEL,
};
use crate::profile::{key_fits_model, Bindings, Profile};
use crate::types::{
    Action, ActionModel, DeviceModel, Edge, KeyId, KeyToken, MacroKind, MacroKindModel, MacroStep,
    MacroStepModel, Modifier, MouseTarget, ScrollDir, steps_model,
};

verus! {

pub const KEY_UP: i32 = 0;
pub const KEY_DOWN: i32 = 1;
pub const KEY_REPEAT: i32 = 2;

/// Only the two Tartarus models are ever grabbed or remapped.
pub open spec fn is_tartarus(vid: u16, pid: u16) -> bool {
    vid == USB_VID_RAZER && (pid == USB_PID_TARTARUS_V2 || pid == USB_PID_TARTARUS_PRO)
}

pub fn allow_grab(vid: u16, pid: u16) -> (r: bool)
    ensures r == is_tartarus(vid, pid),
{
    vid == USB_VID_RAZER && (pid == USB_PID_TARTARUS_V2 || pid == USB_PID_TARTARUS_PRO)
}

/// One input event read from the keypad.
#[derive(Debug, Clone, Copy, PartialEq, Eq, Structural)]
pub struct RawEvent {
    pub vid: u16,
    pub pid: u16,
    pub ev_type: u16,
    pub code: u16,
    pub value: i32,
}

/// One event for the virtual devices; `keyboard` picks the device.
#[derive(Debug, Clone, Copy, PartialEq, Eq, Structural)]
pub struct Emitted {
    pub keyboard: bool,
    pub ev_type: u16,
    pub code: u16,
    pub value: i32,
}

/// Where the engine sends its events.
pub trait EventSink {
    /// Everything sent so far, oldest first.
    spec fn emitted(&self) -> Seq<Emitted>;

    fn emit(&mut self, e: Emitted)
        ensures final(self).emitted() == old(self).emitted().push(e);
}

impl EventSink for Vec<Emitted> {
    open spec fn emitted(&self) -> Seq<Emitted> {
        self@
    }

    fn emit(&mut self, e: Emitted) {
        self.push(e);
    }
}

/// The engine's source of time, in milliseconds.
pub trait Clock {
    fn now_ms(&self) -> u64;

    fn sleep_ms(&mut self, ms: u64);
}

// ---------------------------------------------------------------------
// What each action sends.

pub open spec fn key_event(code: u16, value: i32) -> Emitted {
    Emitted { keyboard: true, ev_type: EV_KEY, code, value }
}

/// A combo pressed: each modifier in order, then the key. Released: the
/// key, then the modifiers in reverse order.
pub open spec fn combo_events(key: KeyToken, mods: Seq<Modifier>, value: i32) -> Seq<Emitted> {
    if value == KEY_DOWN {
        Seq::new(mods.len(), |i: int| key_event(modifier_code(mods[i]), KEY_DOWN))
            .push(key_event(token_code(key), KEY_DOWN))
    } else {
        seq![key_event(token_code(key), KEY_UP)]
            + Seq::new(mods.len(), |i: int| key_event(modifier_code(mods[mods.len() - 1 - i]), KEY_UP))
    }
}

/// A mouse button sends its edge on the mouse device; a wheel step sends
/// one notch on the press and nothing on the release.
pub open spec fn mouse_events(target: MouseTarget, value: i32) -> Seq<Emitted> {
    match target {
        MouseTarget::Button { button } => seq![Emitted { keyboard: false, ev_type: EV_KEY, code: button_code(button), value }],
        MouseTarget::Scroll { scroll } => if value != KEY_DOWN {
            Seq::empty()
        } else {
            seq![Emitted {
                keyboard: false,
                ev_type: EV_REL,
                code: REL_WHEEL,
                value: match scroll { ScrollDir::Up => 1i32, ScrollDir::Down => -1i32 },
            }]
        },
    }
}

pub open spec fn kind_events(kind: MacroKindModel, value: i32) -> Seq<Emitted> {
    match kind {
        MacroKindModel::Key { key, modifiers } => combo_events(key, modifiers, value),
        MacroKindModel::Mouse { target } => mouse_events(target, value),
    }
}

/// What one edge of a plain action sends; macros, hold-repeat and profile
/// switches send nothing here.
pub open spec fn action_events(a: ActionModel, value: i32) -> Seq<Emitted> {
    match a {
        ActionModel::Key { key, modifiers } => combo_events(key, modifiers, value),
        ActionModel::Mouse { target } => mouse_events(target, value),
        _ => Seq::empty(),
    }
}

// ---------------------------------------------------------------------
// Macros.

pub enum MacroOp {
    Emit { kind: MacroKind, value: i32 },
    Wait(u64),
}

pub enum MacroOpModel {
    Emit { kind: MacroKindModel, value: i32 },
    Wait(u64),
}

impl View for MacroOp {
    type V = MacroOpModel;

    open spec fn view(&self) -> MacroOpModel {
        match self {
            MacroOp::Emit { kind, value } => MacroOpModel::Emit { kind: kind@, value: *value },
            MacroOp::Wait(ms) => MacroOpModel::Wait(*ms),
        }
    }
}

pub open spec fn ops_model(ops: Seq<MacroOp>) -> Seq<MacroOpModel> {
    ops.map_values(|o: MacroOp| o@)
}

/// The operations one step plays: a down, an up, or a tap held for
/// `TAP_HOLD_MS`, then its delay when it has one.
pub open spec fn step_ops(step: MacroStepModel) -> Seq<MacroOpModel> {
    let edge = match step.edge {
        Edge::Down => seq![MacroOpModel::Emit { kind: step.kind, value: KEY_DOWN }],
        Edge::Up => seq![MacroOpModel::Emit { kind: step.kind, value: KEY_UP }],
        Edge::Tap => seq![
            MacroOpModel::Emit { kind: step.kind, value: KEY_DOWN },
            MacroOpModel::Wait(TAP_HOLD_MS),
            MacroOpModel::Emit { kind: step.kind, value: KEY_UP },
        ],
    };
    if step.delay_ms > 0 { edge.push(MacroOpModel::Wait(step.delay_ms as u64)) } else { edge }
}

/// A macro's steps played one after another.
pub open spec fn compile_ops(steps: Seq<MacroStepModel>) -> Seq<MacroOpModel>
    decreases steps.len(),
{
    if steps.len() == 0 {
        Seq::empty()
    } else {
        compile_ops(steps.drop_last()) + step_ops(steps.last())
    }
}

pub struct MacroPlay {
    ops: Vec<MacroOp>,
    index: usize,
    due_ms: u64,
}

/// A macro in progress: its operations, the next one to play, and the
/// time it may play at.
pub struct PlayModel {
    pub ops: Seq<MacroOpModel>,
    pub index: int,
    pub due: u64,
}

pub open spec fn sat_add(a: u64, b: u64) -> u64 {
    if a + b > u64::MAX { u64::MAX } else { (a + b) as u64 }
}

/// Plays a macro from `index` at time `now`: every operation whose time
/// has come, in order, stopping at the first wait that ends in the future.
/// Gives the next index, the new due time, and what was sent.
pub open spec fn run_macro(ops: Seq<MacroOpModel>, index: int, due: u64, now: u64) -> (int, u64, Seq<Emitted>)
    decreases ops.len() - index,
{
    if index < 0 || index >= ops.len() || now < due {
        (index, due, Seq::empty())
    } else {
        match ops[index] {
            MacroOpModel::Emit { kind, value } => {
                let rest = run_macro(ops, index + 1, due, now);
                (rest.0, rest.1, kind_events(kind, value) + rest.2)
            },
            MacroOpModel::Wait(ms) => run_macro(ops, index + 1, sat_add(due, ms), now),
        }
    }
}

// ---------------------------------------------------------------------
// The engine.

pub struct RemapEngine {
    model: DeviceModel,
    map: KeyMap,
    table: Bindings,
    macro_busy: bool,
    macro_play: Option<MacroPlay>,
    hold: Option<(KeyId, u64, u32)>,
    hat_x: i32,
    hat_y: i32,
    hat_dir: Option<KeyId>,
    analog_x: i32,
    analog_y: i32,
    analog_left: bool,
    analog_right: bool,
    analog_up: bool,
    analog_down: bool,
}

/// The engine's state as values.
pub struct EngineState {
    pub model: DeviceModel,
    pub map: Seq<(KeyId, u16, u16)>,
    pub table: Map<KeyId, ActionModel>,
    pub macro_busy: bool,
    pub play: Option<PlayModel>,
    /// The held hold-repeat key, when it last fired, and its rate.
    pub hold: Option<(KeyId, u64, u32)>,
    pub hat_x: i32,
    pub hat_y: i32,
    pub hat_dir: Option<KeyId>,
    pub analog_x: i32,
    pub analog_y: i32,
    pub analog_left: bool,
    pub analog_right: bool,
    pub analog_up: bool,
    pub analog_down: bool,
}

spec fn play_model(p: Option<MacroPlay>) -> Option<PlayModel> {
    match p {
        Some(p) => Some(PlayModel { ops: ops_model(p.ops@), index: p.index as int, due: p.due_ms }),
        None => None,
    }
}

impl View for RemapEngine {
    type V = EngineState;

    closed spec fn view(&self) -> EngineState {
        EngineState {
            model: self.model,
            map: self.map@,
            table: self.table@,
            macro_busy: self.macro_busy,
            play: play_model(self.macro_play),
            hold: self.hold,
            hat_x: self.hat_x,
            hat_y: self.hat_y,
            hat_dir: self.hat_dir,
            analog_x: self.analog_x,
            analog_y: self.analog_y,
            analog_left: self.analog_left,
            analog_right: self.analog_right,
            analog_up: self.analog_up,
            analog_down: self.analog_down,
        }
    }
}

/// A fresh engine for a model: no bindings, nothing playing, the hat
/// centred and the stick at rest.
pub open spec fn initial_state(model: DeviceModel) -> EngineState {
    EngineState {
        model,
        map: keypad_table(),
        table: Map::empty(),
        macro_busy: false,
        play: None,
        hold: None,
        hat_x: 0,
        hat_y: 0,
        hat_dir: None,
        analog_x: 128,
        analog_y: 128,
        analog_left: false,
        analog_right: false,
        analog_up: false,
        analog_down: false,
    }
}

/// Ticking a macro: plays what is due; once every operation has played
/// and its last wait has passed, the macro ends and the engine is free.
pub open spec fn tick_macro_spec(s: EngineState, now: u64) -> (EngineState, Seq<Emitted>) {
    match s.play {
        None => (s, Seq::empty()),
        Some(p) => {
            let (index, due, out) = run_macro(p.ops, p.index, p.due, now);
            if index >= p.ops.len() && now >= due {
                (EngineState { play: None, macro_busy: false, ..s }, out)
            } else {
                (EngineState { play: Some(PlayModel { ops: p.ops, index, due }), ..s }, out)
            }
        },
    }
}

/// `n` copies of an event sequence.
pub open spec fn repeat_events(e: Seq<Emitted>, n: nat) -> Seq<Emitted>
    decreases n,
{
    if n == 0 { Seq::empty() } else { repeat_events(e, (n - 1) as nat) + e }
}

/// Ticking a held hold-repeat key: one more press of its inner action for
/// every full period that has passed since it last fired.
pub open spec fn tick_hold_spec(s: EngineState, now: u64) -> (EngineState, Seq<Emitted>) {
    match s.hold {
        None => (s, Seq::empty()),
        Some((key, last, rate)) => {
            if s.table.contains_key(key) && s.table[key] is HoldRepeat && rate > 0 && now >= last {
                let n = ((now - last) / (rate as int)) as nat;
                let inner = *s.table[key]->HoldRepeat_inner;
                let out = repeat_events(action_events(inner, KEY_DOWN), n);
                if n > 0 {
                    (EngineState { hold: Some((key, (last + n * rate) as u64, rate)), ..s }, out)
                } else {
                    (s, out)
                }
            } else {
                (s, Seq::empty())
            }
        },
    }
}

pub open spec fn tick_spec(s: EngineState, now: u64) -> (EngineState, Seq<Emitted>) {
    let (s1, o1) = tick_macro_spec(s, now);
    let (s2, o2) = tick_hold_spec(s1, now);
    (s2, o1 + o2)
}

/// Pressing a bound key. A macro starts unless one is already playing; a
/// hold-repeat presses its inner action and starts the clock; anything
/// else sends its press.
pub open spec fn press_spec(s: EngineState, key: KeyId, a: ActionModel, now: u64) -> (EngineState, Seq<Emitted>) {
    match a {
        ActionModel::Macro { steps } => if s.macro_busy {
            (s, Seq::empty())
        } else {
            let started = EngineState {
                macro_busy: true,
                play: Some(PlayModel { ops: compile_ops(steps), index: 0, due: now }),
                ..s
            };
            tick_macro_spec(started, now)
        },
        ActionModel::HoldRepeat { inner, rate_ms } => (
            EngineState { hold: Some((key, now, rate_ms)), ..s },
            action_events(*inner, KEY_DOWN),
        ),
        _ => (s, action_events(a, KEY_DOWN)),
    }
}

/// Releasing a bound key. A macro plays on by itself; a hold-repeat
/// releases its inner action and stops repeating.
pub open spec fn release_spec(s: EngineState, a: ActionModel) -> (EngineState, Seq<Emitted>) {
    match a {
        ActionModel::Macro { .. } => (s, Seq::empty()),
        ActionModel::HoldRepeat { inner, .. } => (EngineState { hold: None, ..s }, action_events(*inner, KEY_UP)),
        _ => (s, action_events(a, KEY_UP)),
    }
}

/// The event itself, unchanged, for a key with no binding.
pub open spec fn passthrough(ev: RawEvent) -> Emitted {
    Emitted { keyboard: ev.ev_type == EV_KEY, ev_type: ev.ev_type, code: ev.code, value: ev.value }
}

/// One edge of a key: an unbound key passes the event through; a bound
/// key plays its press (value 1) or release (value 0); kernel
/// auto-repeat (value 2) and anything else do nothing.
#[verifier::opaque]
pub open spec fn dispatch_spec(s: EngineState, key: KeyId, value: i32, ev: RawEvent, now: u64) -> (EngineState, Seq<Emitted>) {
    if !s.table.contains_key(key) {
        (s, seq![passthrough(ev)])
    } else if value == KEY_DOWN {
        press_spec(s, key, s.table[key], now)
    } else if value == KEY_UP {
        release_spec(s, s.table[key])
    } else {
        (s, Seq::empty())
    }
}

pub open spec fn then(first: (EngineState, Seq<Emitted>), f: spec_fn(EngineState) -> (EngineState, Seq<Emitted>)) -> (EngineState, Seq<Emitted>) {
    let second = f(first.0);
    (second.0, first.1 + second.1)
}

/// Releasing the direction the thumb pad last pointed at, if any.
pub open spec fn hat_release_spec(s: EngineState, ev: RawEvent, now: u64) -> (EngineState, Seq<Emitted>) {
    match s.hat_dir {
        Some(prev) => dispatch_spec(s, prev, KEY_UP, ev, now),
        None => (s, Seq::empty()),
    }
}

/// The thumb pad: a change of direction releases the old direction and
/// presses the new one.
pub open spec fn hat_spec(s: EngineState, ev: RawEvent, now: u64) -> (EngineState, Seq<Emitted>) {
    let s1 = if ev.code == ABS_HAT0X { EngineState { hat_x: ev.value, ..s } } else { EngineState { hat_y: ev.value, ..s } };
    let next = hat_direction(s1.hat_x, s1.hat_y);
    if next == s1.hat_dir {
        (s1, Seq::empty())
    } else {
        let released = hat_release_spec(s1, ev, now);
        let s2 = EngineState { hat_dir: next, ..released.0 };
        match next {
            Some(id) => {
                let pressed = dispatch_spec(s2, id, KEY_DOWN, ev, now);
                (pressed.0, released.1 + pressed.1)
            },
            None => (s2, released.1),
        }
    }
}

pub open spec fn analog_flag(s: EngineState, id: KeyId) -> bool {
    match id {
        KeyId::AnalogLeft => s.analog_left,
        KeyId::AnalogRight => s.analog_right,
        KeyId::AnalogUp => s.analog_up,
        KeyId::AnalogDown => s.analog_down,
        _ => false,
    }
}

pub open spec fn with_analog_flag(s: EngineState, id: KeyId, v: bool) -> EngineState {
    match id {
        KeyId::AnalogLeft => EngineState { analog_left: v, ..s },
        KeyId::AnalogRight => EngineState { analog_right: v, ..s },
        KeyId::AnalogUp => EngineState { analog_up: v, ..s },
        KeyId::AnalogDown => EngineState { analog_down: v, ..s },
        _ => s,
    }
}

/// A stick direction with deflection `d` (of 127): pressed once it reaches
/// four tenths of full travel, released once it is back to three tenths.
pub open spec fn analog_dir_spec(s: EngineState, id: KeyId, d: int, ev: RawEvent, now: u64) -> (EngineState, Seq<Emitted>) {
    let pressed = analog_flag(s, id);
    if !pressed && 10 * d >= ANALOG_PRESS_TENTHS * 127 {
        dispatch_spec(with_analog_flag(s, id, true), id, KEY_DOWN, ev, now)
    } else if pressed && 10 * d <= ANALOG_RELEASE_TENTHS * 127 {
        dispatch_spec(with_analog_flag(s, id, false), id, KEY_UP, ev, now)
    } else {
        (s, Seq::empty())
    }
}

pub open spec fn analog_spec(s: EngineState, ev: RawEvent, now: u64) -> (EngineState, Seq<Emitted>) {
    let d = ev.value - 128;
    if ev.code == ABS_X {
        let s1 = EngineState { analog_x: ev.value, ..s };
        then(analog_dir_spec(s1, KeyId::AnalogRight, d, ev, now), |t: EngineState| analog_dir_spec(t, KeyId::AnalogLeft, -d, ev, now))
    } else {
        let s1 = EngineState { analog_y: ev.value, ..s };
        then(analog_dir_spec(s1, KeyId::AnalogDown, d, ev, now), |t: EngineState| analog_dir_spec(t, KeyId::AnalogUp, -d, ev, now))
    }
}

/// One event from the keypad. Events from any other device are ignored.
/// The hat and the stick are decoded into directions. A wheel notch is a
/// press, followed by a release unless the wheel plays a macro. Every
/// other key sends its own edge. Codes the pad does not have are dropped.
pub open spec fn handle_spec(s: EngineState, ev: RawEvent, now: u64) -> (EngineState, Seq<Emitted>) {
    if !is_tartarus(ev.vid, ev.pid) {
        (s, Seq::empty())
    } else if ev.ev_type == EV_ABS && (ev.code == ABS_HAT0X || ev.code == ABS_HAT0Y) {
        hat_spec(s, ev, now)
    } else if ev.ev_type == EV_ABS && (ev.code == ABS_X || ev.code == ABS_Y) {
        analog_spec(s, ev, now)
    } else {
        let qualifier = if ev.ev_type == EV_REL { ev.value } else { KEY_DOWN };
        match table_lookup(s.map, ev.ev_type, ev.code, qualifier) {
            None => (s, Seq::empty()),
            Some(key) => if ev.ev_type == EV_REL {
                let first = dispatch_spec(s, key, KEY_DOWN, ev, now);
                if first.0.table.contains_key(key) && !(first.0.table[key] is Macro) {
                    then(first, |t: EngineState| dispatch_spec(t, key, KEY_UP, ev, now))
                } else {
                    first
                }
            } else {
                dispatch_spec(s, key, ev.value, ev, now)
            },
        }
    }
}

// ---------------------------------------------------------------------
// Sending events.

fn emit_key<S: EventSink>(sink: &mut S, code: u16, value: i32)
    ensures final(sink).emitted() == old(sink).emitted().push(key_event(code, value)),
{
    sink.emit(Emitted { keyboard: true, ev_type: EV_KEY, code, value });
}

fn emit_combo<S: EventSink>(sink: &mut S, key: KeyToken, modifiers: &Vec<Modifier>, value: i32)
    ensures final(sink).emitted() == old(sink).emitted() + combo_events(key, modifiers@, value),
{
    let ghost start = sink.emitted();
    let ghost mods = modifiers@;
    let key_code = token_to_evdev(key);
    if value == KEY_DOWN {
        let mut i: usize = 0;
        while i < modifiers.len()
            invariant
                i <= modifiers.len(),
                mods == modifiers@,
                sink.emitted() == start + Seq::new(i as nat, |j: int| key_event(modifier_code(mods[j]), KEY_DOWN)),
            decreases modifiers.len() - i,
        {
            emit_key(sink, modifier_to_evdev(modifiers[i]), KEY_DOWN);
            i += 1;
            assert(Seq::new(i as nat, |j: int| key_event(modifier_code(mods[j]), KEY_DOWN))
                =~= Seq::new((i - 1) as nat, |j: int| key_event(modifier_code(mods[j]), KEY_DOWN))
                    .push(key_event(modifier_code(mods[i - 1]), KEY_DOWN)));
        }
        emit_key(sink, key_code, KEY_DOWN);
        assert(sink.emitted() =~= start + combo_events(key, mods, value));
    } else {
        emit_key(sink, key_code, KEY_UP);
        let mut i: usize = modifiers.len();
        while i > 0
            invariant
                i <= modifiers.len(),
                mods == modifiers@,
                sink.emitted() == start + seq![key_event(token_code(key), KEY_UP)]
                    + Seq::new((mods.len() - i) as nat, |j: int| key_event(modifier_code(mods[mods.len() - 1 - j]), KEY_UP)),
            decreases i,
        {
            i -= 1;
            emit_key(sink, modifier_to_evdev(modifiers[i]), KEY_UP);
            assert(Seq::new((mods.len() - i) as nat, |j: int| key_event(modifier_code(mods[mods.len() - 1 - j]), KEY_UP))
                =~= Seq::new((mods.len() - i - 1) as nat, |j: int| key_event(modifier_code(mods[mods.len() - 1 - j]), KEY_UP))
                    .push(key_event(modifier_code(mods[i as int]), KEY_UP)));
        }
        assert(sink.emitted() =~= start + combo_events(key, mods, value));
    }
}

fn emit_mouse<S: EventSink>(sink: &mut S, target: MouseTarget, value: i32)
    ensures final(sink).emitted() == old(sink).emitted() + mouse_events(target, value),
{
    let ghost start = sink.emitted();
    match target {
        MouseTarget::Button { button } => {
            sink.emit(Emitted { keyboard: false, ev_type: EV_KEY, code: mouse_button_to_evdev(button), value });
        },
        MouseTarget::Scroll { scroll } => {
            if value != KEY_DOWN {
                assert(sink.emitted() =~= start + mouse_events(target, value));
                return;
            }
            let wheel: i32 = match scroll {
                ScrollDir::Up => 1,
                ScrollDir::Down => -1,
            };
            sink.emit(Emitted { keyboard: false, ev_type: EV_REL, code: REL_WHEEL, value: wheel });
        },
    }
    assert(sink.emitted() =~= start + mouse_events(target, value));
}

fn play_kind_edge<S: EventSink>(kind: &MacroKind, value: i32, sink: &mut S)
    ensures final(sink).emitted() == old(sink).emitted() + kind_events(kind@, value),
{
    match kind {
        MacroKind::Key { key, modifiers } => emit_combo(sink, *key, modifiers, value),
        MacroKind::Mouse { target } => emit_mouse(sink, *target, value),
    }
}

fn play_action_edge<S: EventSink>(action: &Action, value: i32, sink: &mut S)
    ensures final(sink).emitted() == old(sink).emitted() + action_events(action@, value),
{
    match action {
        Action::Key { key, modifiers } => emit_combo(sink, *key, modifiers, value),
        Action::Mouse { target } => emit_mouse(sink, *target, value),
        _ => {
            assert(sink.emitted() =~= old(sink).emitted() + action_events(action@, value));
        },
    }
}

proof fn lemma_ops_push(ops: Seq<MacroOp>, op: MacroOp)
    ensures ops_model(ops.push(op)) == ops_model(ops).push(op@),
{
    assert(ops_model(ops.push(op)) =~= ops_model(ops).push(op@));
}

fn push_op(ops: &mut Vec<MacroOp>, op: MacroOp)
    ensures ops_model(final(ops)@) == ops_model(old(ops)@).push(op@),
{
    let ghost m = op@;
    proof { lemma_ops_push(ops@, op); }
    ops.push(op);
}

fn push_step_ops(ops: &mut Vec<MacroOp>, step: &MacroStep)
    ensures ops_model(final(ops)@) == ops_model(old(ops)@) + step_ops(step@),
{
    let ghost start = ops_model(ops@);
    match step.edge {
        Edge::Down => push_op(ops, MacroOp::Emit { kind: step.kind.duplicate(), value: KEY_DOWN }),
        Edge::Up => push_op(ops, MacroOp::Emit { kind: step.kind.duplicate(), value: KEY_UP }),
        Edge::Tap => {
            push_op(ops, MacroOp::Emit { kind: step.kind.duplicate(), value: KEY_DOWN });
            push_op(ops, MacroOp::Wait(TAP_HOLD_MS));
            push_op(ops, MacroOp::Emit { kind: step.kind.duplicate(), value: KEY_UP });
        },
    }
    if step.delay_ms > 0 {
        push_op(ops, MacroOp::Wait(step.delay_ms as u64));
    }
    assert(ops_model(ops@) =~= start + step_ops(step@));
}

/// A macro ready to play from its first operation at `now_ms`.
fn compile_macro(steps: &Vec<MacroStep>, now_ms: u64) -> (p: MacroPlay)
    ensures
        ops_model(p.ops@) == compile_ops(steps_model(steps@)),
        p.index == 0,
        p.due_ms == now_ms,
{
    let ghost all = steps_model(steps@);
    let mut ops: Vec<MacroOp> = Vec::new();
    let mut i: usize = 0;
    assert(ops_model(ops@) =~= compile_ops(all.take(0)));
    while i < steps.len()
        invariant
            i <= steps.len(),
            all == steps_model(steps@),
            ops_model(ops@) == compile_ops(all.take(i as int)),
        decreases steps.len() - i,
    {
        push_step_ops(&mut ops, &steps[i]);
        assert(all.take(i + 1).drop_last() =~= all.take(i as int));
        assert(all.take(i + 1).last() == steps@[i as int]@);
        i += 1;
    }
    assert(all.take(steps.len() as int) =~= all);
    MacroPlay { ops, index: 0, due_ms: now_ms }
}

// ---------------------------------------------------------------------
// Engine operations.

/// The time a pending macro or held repeat key next needs the engine.
pub open spec fn deadline_spec(s: EngineState) -> Option<u64> {
    match s.play {
        Some(p) => Some(p.due),
        None => match s.hold {
            Some((_, last, rate)) => Some(sat_add(last, rate as u64)),
            None => None,
        },
    }
}

impl RemapEngine {
    /// A fresh engine for `model`, with nothing bound.
    pub fn new(model: DeviceModel) -> (e: RemapEngine)
        ensures e@ == initial_state(model),
    {
        let map = match model {
            DeviceModel::V2 => KeyMap::v2(),
            DeviceModel::Pro => KeyMap::pro(),
        };
        RemapEngine {
            model,
            map,
            table: Bindings::new(),
            macro_busy: false,
            macro_play: None,
            hold: None,
            hat_x: 0,
            hat_y: 0,
            hat_dir: None,
            analog_x: ANALOG_AXIS_CENTER,
            analog_y: ANALOG_AXIS_CENTER,
            analog_left: false,
            analog_right: false,
            analog_up: false,
            analog_down: false,
        }
    }

    /// Binds the profile's actions for this engine's model, replacing what
    /// was bound; nothing else changes.
    pub fn apply_profile(&mut self, p: &Profile)
        ensures
            final(self)@ == (EngineState {
                table: p.bindings@.restrict(Set::new(|k: KeyId| key_fits_model(k, Some(old(self)@.model)))),
                ..old(self)@
            }),
    {
        self.table = p.bindings_for_model(self.model);
    }

    /// Whether a macro is playing or a repeat key is held.
    pub fn has_timed_work(&self) -> (r: bool)
        ensures r == (self@.play is Some || self@.hold is Some),
    {
        self.macro_play.is_some() || self.hold.is_some()
    }

    /// When the engine next needs a tick: the playing macro's due time, else
    /// the held repeat key's next firing.
    pub fn pending_deadline_ms(&self) -> (r: Option<u64>)
        ensures r == deadline_spec(self@),
    {
        match &self.macro_play {
            Some(play) => Some(play.due_ms),
            None => match self.hold {
                Some((_, last_ms, rate_ms)) => Some(last_ms.saturating_add(rate_ms as u64)),
                None => None,
            },
        }
    }

    /// Plays the running macro up to time `now`.
    fn tick_macro_at<S: EventSink>(&mut self, now: u64, sink: &mut S)
        ensures
            final(self)@ == tick_macro_spec(old(self)@, now).0,
            final(sink).emitted() == old(sink).emitted() + tick_macro_spec(old(self)@, now).1,
    {
        let ghost s0 = self@;
        let ghost start = sink.emitted();
        let mut play = match self.macro_play.take() {
            None => {
                assert(sink.emitted() =~= start + tick_macro_spec(s0, now).1);
                return;
            },
            Some(p) => p,
        };
        let ghost ops = ops_model(play.ops@);
        let ghost total = run_macro(ops, play.index as int, play.due_ms, now);
        loop
            invariant
                ops == ops_model(play.ops@),
                run_macro(ops, play.index as int, play.due_ms, now).0 == total.0,
                run_macro(ops, play.index as int, play.due_ms, now).1 == total.1,
                sink.emitted() + run_macro(ops, play.index as int, play.due_ms, now).2 == start + total.2,
            ensures
                ops == ops_model(play.ops@),
                play.index as int == total.0,
                play.due_ms == total.1,
                sink.emitted() == start + total.2,
            decreases play.ops.len() - play.index,
        {
            if play.index >= play.ops.len() || now < play.due_ms {
                assert(sink.emitted() + Seq::<Emitted>::empty() =~= sink.emitted());
                break;
            }
            let ghost before = sink.emitted();
            let ghost i = play.index as int;
            let ghost rest = run_macro(ops, i + 1, play.due_ms, now);
            assert(ops[i] == play.ops@[i]@);
            match &play.ops[play.index] {
                MacroOp::Emit { kind, value } => {
                    play_kind_edge(kind, *value, sink);
                    assert(run_macro(ops, i, play.due_ms, now).2 == kind_events(kind@, *value) + rest.2);
                    assert(sink.emitted() + rest.2 =~= before + (kind_events(kind@, *value) + rest.2));
                },
                MacroOp::Wait(ms) => {
                    let ms = *ms;
                    play.due_ms = play.due_ms.saturating_add(ms);
                },
            }
            play.index += 1;
        }
        if play.index >= play.ops.len() && now >= play.due_ms {
            self.macro_busy = false;
        } else {
            self.macro_play = Some(play);
        }
    }
}

proof fn lemma_quotient(span: int, rate: int, k: int)
    requires
        rate > 0,
        0 <= k * rate <= span,
        span - k * rate < rate,
    ensures
        span / rate == k,
{
    assert(span / rate == k) by (nonlinear_arith)
        requires rate > 0, 0 <= k * rate <= span, span - k * rate < rate;
}

impl RemapEngine {
    /// Fires the held repeat key once for each full period since it last
    /// fired.
    fn tick_hold_at<S: EventSink>(&mut self, now: u64, sink: &mut S)
        ensures
            final(self)@ == tick_hold_spec(old(self)@, now).0,
            final(sink).emitted() == old(sink).emitted() + tick_hold_spec(old(self)@, now).1,
    {
        let ghost s0 = self@;
        let ghost start = sink.emitted();
        let (key_id, last_ms, rate_ms) = match self.hold {
            None => {
                assert(sink.emitted() =~= start + tick_hold_spec(s0, now).1);
                return;
            },
            Some(h) => h,
        };
        let inner = match self.table.get(key_id) {
            Some(a) => match a {
                Action::HoldRepeat { inner, .. } => (**inner).duplicate(),
                _ => {
                    assert(sink.emitted() =~= start + tick_hold_spec(s0, now).1);
                    return;
                },
            },
            None => {
                assert(sink.emitted() =~= start + tick_hold_spec(s0, now).1);
                return;
            },
        };
        let rate = rate_ms as u64;
        if rate == 0 {
            assert(sink.emitted() =~= start + tick_hold_spec(s0, now).1);
            return;
        }
        let ghost e = action_events(inner@, KEY_DOWN);
        let ghost span: int = now - last_ms;
        let mut last = last_ms;
        let ghost mut k: int = 0;
        assert(sink.emitted() =~= start + repeat_events(e, 0));
        while now.saturating_sub(last) >= rate
            invariant
                rate > 0,
                rate == rate_ms,
                span == now - last_ms,
                k >= 0,
                last == last_ms + k * rate,
                k == 0 || k * rate <= span,
                e == action_events(inner@, KEY_DOWN),
                sink.emitted() == start + repeat_events(e, k as nat),
            decreases now - last,
        {
            assert((k + 1) * rate == k * rate + rate) by (nonlinear_arith);
            last = last.saturating_add(rate);
            play_action_edge(&inner, KEY_DOWN, sink);
            proof {
                k = k + 1;
                assert(repeat_events(e, k as nat) == repeat_events(e, (k - 1) as nat) + e);
                assert(sink.emitted() =~= start + repeat_events(e, k as nat));
            }
        }
        proof {
            if now >= last_ms {
                assert(k * rate >= 0) by (nonlinear_arith) requires k >= 0, rate > 0;
                lemma_quotient(span, rate as int, k);
            } else {
                assert(k == 0);
            }
        }
        if last != last_ms {
            self.hold = Some((key_id, last, rate_ms));
        }
    }

    /// Plays what is due of the running macro and of the held repeat key
    /// at time `now`.
    pub fn tick_at<S: EventSink>(&mut self, now: u64, sink: &mut S)
        ensures
            final(self)@ == tick_spec(old(self)@, now).0,
            final(sink).emitted() == old(sink).emitted() + tick_spec(old(self)@, now).1,
    {
        let ghost start = sink.emitted();
        self.tick_macro_at(now, sink);
        let ghost mid = sink.emitted();
        self.tick_hold_at(now, sink);
        assert(sink.emitted() =~= start + tick_spec(old(self)@, now).1);
    }

    /// Plays what is due, reading the time from `clock` once.
    pub fn tick<S: EventSink, C: Clock>(&mut self, sink: &mut S, clock: &mut C)
        ensures
            exists|now: u64|
                final(self)@ == tick_spec(old(self)@, now).0
                && final(sink).emitted() == old(sink).emitted() + tick_spec(old(self)@, now).1,
    {
        let now = clock.now_ms();
        self.tick_at(now, sink);
    }
}

fn same_dir(a: Option<KeyId>, b: Option<KeyId>) -> (r: bool)
    ensures r == (a == b),
{
    match (a, b) {
        (Some(x), Some(y)) => x == y,
        (None, None) => true,
        _ => false,
    }
}

impl RemapEngine {
    fn play_press<S: EventSink>(&mut self, key_id: KeyId, action: &Action, now: u64, sink: &mut S)
        ensures
            final(self)@ == press_spec(old(self)@, key_id, action@, now).0,
            final(sink).emitted() == old(sink).emitted() + press_spec(old(self)@, key_id, action@, now).1,
    {
        match action {
            Action::Macro { steps } => {
                if self.macro_busy {
                    assert(sink.emitted() =~= old(sink).emitted() + Seq::<Emitted>::empty());
                    return;
                }
                self.macro_busy = true;
                self.macro_play = Some(compile_macro(steps, now));
                self.tick_macro_at(now, sink);
            },
            Action::HoldRepeat { inner, rate_ms } => {
                play_action_edge(&**inner, KEY_DOWN, sink);
                self.hold = Some((key_id, now, *rate_ms));
            },
            _ => play_action_edge(action, KEY_DOWN, sink),
        }
    }

    fn play_release<S: EventSink>(&mut self, action: &Action, sink: &mut S)
        ensures
            final(self)@ == release_spec(old(self)@, action@).0,
            final(sink).emitted() == old(sink).emitted() + release_spec(old(self)@, action@).1,
    {
        match action {
            Action::Macro { .. } => {
                assert(sink.emitted() =~= old(sink).emitted() + Seq::<Emitted>::empty());
            },
            Action::HoldRepeat { inner, .. } => {
                play_action_edge(&**inner, KEY_UP, sink);
                self.hold = None;
            },
            _ => play_action_edge(action, KEY_UP, sink),
        }
    }

    fn dispatch<S: EventSink>(&mut self, key_id: KeyId, value: i32, ev: RawEvent, now: u64, sink: &mut S)
        ensures
            final(self)@ == dispatch_spec(old(self)@, key_id, value, ev, now).0,
            final(sink).emitted() == old(sink).emitted() + dispatch_spec(old(self)@, key_id, value, ev, now).1,
    {
        proof { reveal(dispatch_spec); }
        let action = match self.table.get(key_id) {
            None => {
                sink.emit(Emitted { keyboard: ev.ev_type == EV_KEY, ev_type: ev.ev_type, code: ev.code, value: ev.value });
                assert(sink.emitted() =~= old(sink).emitted() + seq![passthrough(ev)]);
                return;
            },
            Some(a) => a.duplicate(),
        };
        if value == KEY_DOWN {
            self.play_press(key_id, &action, now, sink);
        } else if value == KEY_UP {
            self.play_release(&action, sink);
        } else {
            assert(sink.emitted() =~= old(sink).emitted() + Seq::<Emitted>::empty());
        }
    }

    fn set_hat_axis(&mut self, ev: RawEvent)
        ensures
            final(self)@ == (if ev.code == ABS_HAT0X {
                EngineState { hat_x: ev.value, ..old(self)@ }
            } else {
                EngineState { hat_y: ev.value, ..old(self)@ }
            }),
    {
        if ev.code == ABS_HAT0X {
            self.hat_x = ev.value;
        } else {
            self.hat_y = ev.value;
        }
    }

    fn release_hat<S: EventSink>(&mut self, ev: RawEvent, now: u64, sink: &mut S)
        ensures
            final(self)@ == hat_release_spec(old(self)@, ev, now).0,
            final(sink).emitted() == old(sink).emitted() + hat_release_spec(old(self)@, ev, now).1,
    {
        match self.hat_dir {
            Some(prev) => self.dispatch(prev, KEY_UP, ev, now, sink),
            None => {
                assert(sink.emitted() =~= old(sink).emitted() + Seq::<Emitted>::empty());
            },
        }
    }

    fn handle_hat<S: EventSink>(&mut self, ev: RawEvent, now: u64, sink: &mut S)
        ensures
            final(self)@ == hat_spec(old(self)@, ev, now).0,
            final(sink).emitted() == old(sink).emitted() + hat_spec(old(self)@, ev, now).1,
    {
        let ghost start = sink.emitted();
        self.set_hat_axis(ev);
        let next = decode_hat(self.hat_x, self.hat_y);
        if same_dir(next, self.hat_dir) {
            assert(sink.emitted() =~= start + Seq::<Emitted>::empty());
            return;
        }
        let ghost s1 = self@;
        self.release_hat(ev, now, sink);
        let ghost released = hat_release_spec(s1, ev, now);
        self.hat_dir = next;
        let ghost s2 = self@;
        assert(s2 == EngineState { hat_dir: next, ..released.0 });
        match next {
            Some(id) => {
                self.dispatch(id, KEY_DOWN, ev, now, sink);
                assert(sink.emitted() =~= start + (released.1 + dispatch_spec(s2, id, KEY_DOWN, ev, now).1));
            },
            None => {},
        }
    }

    fn analog_flag(&self, id: KeyId) -> (r: bool)
        ensures r == analog_flag(self@, id),
    {
        match id {
            KeyId::AnalogLeft => self.analog_left,
            KeyId::AnalogRight => self.analog_right,
            KeyId::AnalogUp => self.analog_up,
            KeyId::AnalogDown => self.analog_down,
            _ => false,
        }
    }

    fn set_analog_flag(&mut self, id: KeyId, v: bool)
        ensures final(self)@ == with_analog_flag(old(self)@, id, v),
    {
        match id {
            KeyId::AnalogLeft => self.analog_left = v,
            KeyId::AnalogRight => self.analog_right = v,
            KeyId::AnalogUp => self.analog_up = v,
            KeyId::AnalogDown => self.analog_down = v,
            _ => {},
        }
    }

    fn apply_analog_dir<S: EventSink>(&mut self, id: KeyId, d: i64, ev: RawEvent, now: u64, sink: &mut S)
        requires -0x1_0000_0000 <= d <= 0x1_0000_0000,
        ensures
            final(self)@ == analog_dir_spec(old(self)@, id, d as int, ev, now).0,
            final(sink).emitted() == old(sink).emitted() + analog_dir_spec(old(self)@, id, d as int, ev, now).1,
    {
        let pressed = self.analog_flag(id);
        if !pressed && 10 * d >= ANALOG_PRESS_TENTHS * 127 {
            self.set_analog_flag(id, true);
            self.dispatch(id, KEY_DOWN, ev, now, sink);
        } else if pressed && 10 * d <= ANALOG_RELEASE_TENTHS * 127 {
            self.set_analog_flag(id, false);
            self.dispatch(id, KEY_UP, ev, now, sink);
        } else {
            assert(sink.emitted() =~= old(sink).emitted() + Seq::<Emitted>::empty());
        }
    }

    fn handle_analog<S: EventSink>(&mut self, ev: RawEvent, now: u64, sink: &mut S)
        ensures
            final(self)@ == analog_spec(old(self)@, ev, now).0,
            final(sink).emitted() == old(sink).emitted() + analog_spec(old(self)@, ev, now).1,
    {
        let ghost start = sink.emitted();
        let d: i64 = ev.value as i64 - ANALOG_AXIS_CENTER as i64;
        if ev.code == ABS_X {
            self.analog_x = ev.value;
            self.apply_analog_dir(KeyId::AnalogRight, d, ev, now, sink);
            self.apply_analog_dir(KeyId::AnalogLeft, -d, ev, now, sink);
        } else {
            self.analog_y = ev.value;
            self.apply_analog_dir(KeyId::AnalogDown, d, ev, now, sink);
            self.apply_analog_dir(KeyId::AnalogUp, -d, ev, now, sink);
        }
        assert(sink.emitted() =~= start + analog_spec(old(self)@, ev, now).1);
    }

    /// Handles one event from the keypad at time `now`.
    pub fn handle_at<S: EventSink>(&mut self, ev: RawEvent, now: u64, sink: &mut S)
        ensures
            final(self)@ == handle_spec(old(self)@, ev, now).0,
            final(sink).emitted() == old(sink).emitted() + handle_spec(old(self)@, ev, now).1,
    {
        let ghost start = sink.emitted();
        if !allow_grab(ev.vid, ev.pid) {
            assert(sink.emitted() =~= start + Seq::<Emitted>::empty());
            return;
        }
        if ev.ev_type == EV_ABS && (ev.code == ABS_HAT0X || ev.code == ABS_HAT0Y) {
            self.handle_hat(ev, now, sink);
            return;
        }
        if ev.ev_type == EV_ABS && (ev.code == ABS_X || ev.code == ABS_Y) {
            self.handle_analog(ev, now, sink);
            return;
        }
        let qualifier = if ev.ev_type == EV_REL { ev.value } else { KEY_DOWN };
        let key_id = match self.map.get(ev.ev_type, ev.code, qualifier) {
            None => {
                assert(sink.emitted() =~= start + Seq::<Emitted>::empty());
                return;
            },
            Some(k) => k,
        };
        if ev.ev_type == EV_REL {
            self.dispatch(key_id, KEY_DOWN, ev, now, sink);
            let release = match self.table.get(key_id) {
                Some(a) => match a {
                    Action::Macro { .. } => false,
                    _ => true,
                },
                None => false,
            };
            if release {
                self.dispatch(key_id, KEY_UP, ev, now, sink);
                assert(sink.emitted() =~= start + handle_spec(old(self)@, ev, now).1);
            }
            return;
        }
        self.dispatch(key_id, ev.value, ev, now, sink);
    }

    /// Handles one event from the keypad, reading the time from `clock` once.
    pub fn handle<S: EventSink, C: Clock>(&mut self, ev: RawEvent, sink: &mut S, clock: &mut C)
        ensures
            exists|now: u64|
                final(self)@ == handle_spec(old(self)@, ev, now).0
                && final(sink).emitted() == old(sink).emitted() + handle_spec(old(self)@, ev, now).1,
    {
        let now = clock.now_ms();
        self.handle_at(ev, now, sink);
    }
}

// ---------------------------------------------------------------------
// Laws of the engine.

/// Events from any device but a Tartarus change nothing and send nothing.
pub proof fn lemma_foreign_device_ignored(s: EngineState, ev: RawEvent, now: u64)
    requires !is_tartarus(ev.vid, ev.pid),
    ensures handle_spec(s, ev, now) == (s, Seq::<Emitted>::empty()),
{
}

/// A key with no binding sends its own event, unchanged, and changes
/// nothing.
pub proof fn lemma_unbound_key_passes_through(s: EngineState, ev: RawEvent, now: u64, key: KeyId)
    requires
        is_tartarus(ev.vid, ev.pid),
        ev.ev_type == EV_KEY,
        table_lookup(s.map, ev.ev_type, ev.code, KEY_DOWN) == Some(key),
        !s.table.contains_key(key),
    ensures handle_spec(s, ev, now) == (s, seq![passthrough(ev)]),
{
    reveal(dispatch_spec);
}

/// The engine as `apply_profile(p)` leaves it: the profile's bindings for
/// the engine's model, everything else as it was.
pub open spec fn applied_state(s: EngineState, p: Profile) -> EngineState {
    EngineState {
        table: p.bindings@.restrict(Set::new(|k: KeyId| key_fits_model(k, Some(s.model)))),
        ..s
    }
}

/// Once a profile is applied, a key press is looked up in that profile's
/// bindings for the model alone: a key bound there to a combo sends the
/// modifiers' downs and then the key's down, and changes nothing; a key
/// not bound there (bound only by an earlier profile, say, or a key the
/// model does not have) passes its own event through. Applying starts no
/// macro and no repeat.
pub proof fn lemma_applied_profile_drives_presses(s: EngineState, p: Profile, ev: RawEvent, now: u64, k: KeyId)
    requires
        is_tartarus(ev.vid, ev.pid),
        ev.ev_type == EV_KEY,
        ev.value == KEY_DOWN,
        table_lookup(s.map, ev.ev_type, ev.code, KEY_DOWN) == Some(k),
    ensures ({
        let t = applied_state(s, p);
        &&& t.play == s.play && t.hold == s.hold && t.macro_busy == s.macro_busy
        &&& p.bindings@.contains_key(k) && key_fits_model(k, Some(s.model)) ==> (
            p.bindings@[k] matches ActionModel::Key { key, modifiers }
                ==> handle_spec(t, ev, now) == (t, combo_events(key, modifiers, KEY_DOWN)))
        &&& !(p.bindings@.contains_key(k) && key_fits_model(k, Some(s.model)))
            ==> handle_spec(t, ev, now) == (t, seq![passthrough(ev)])
    }),
{
    reveal(dispatch_spec);
    let t = applied_state(s, p);
    assert(t.table.contains_key(k) == (p.bindings@.contains_key(k) && key_fits_model(k, Some(s.model))));
    if t.table.contains_key(k) {
        assert(t.table[k] == p.bindings@[k]);
    }
}

/// Kernel auto-repeat of a bound key changes nothing and sends nothing:
/// repeating is the engine's own business.
pub proof fn lemma_auto_repeat_ignored(s: EngineState, ev: RawEvent, now: u64, key: KeyId)
    requires
        is_tartarus(ev.vid, ev.pid),
        ev.ev_type == EV_KEY,
        ev.value == KEY_REPEAT,
        table_lookup(s.map, ev.ev_type, ev.code, KEY_DOWN) == Some(key),
        s.table.contains_key(key),
    ensures handle_spec(s, ev, now) == (s, Seq::<Emitted>::empty()),
{
    reveal(dispatch_spec);
}

/// Pressing a macro key while a macro plays changes nothing and sends
/// nothing.
pub proof fn lemma_busy_macro_press_ignored(s: EngineState, key: KeyId, ev: RawEvent, now: u64)
    requires
        s.macro_busy,
        s.table.contains_key(key),
        s.table[key] is Macro,
    ensures dispatch_spec(s, key, KEY_DOWN, ev, now) == (s, Seq::<Emitted>::empty()),
{
    reveal(dispatch_spec);
}

/// Releasing a combo undoes its press in reverse: the same codes, last
/// pressed first released.
pub proof fn lemma_combo_release_mirrors_press(key: KeyToken, mods: Seq<Modifier>)
    ensures
        combo_events(key, mods, KEY_UP).len() == combo_events(key, mods, KEY_DOWN).len(),
        forall|i: int| 0 <= i < combo_events(key, mods, KEY_DOWN).len() ==> {
            let n = combo_events(key, mods, KEY_DOWN).len();
            #[trigger] combo_events(key, mods, KEY_UP)[i]
                == Emitted { value: KEY_UP, ..combo_events(key, mods, KEY_DOWN)[n - 1 - i] }
        },
{
    let down = combo_events(key, mods, KEY_DOWN);
    let up = combo_events(key, mods, KEY_UP);
    assert forall|i: int| 0 <= i < down.len() implies
        #[trigger] up[i] == Emitted { value: KEY_UP, ..down[down.len() - 1 - i] } by {
        if i == 0 {
            assert(down[down.len() - 1] == key_event(token_code(key), KEY_DOWN));
        } else {
            assert(up[i] == key_event(modifier_code(mods[mods.len() - 1 - (i - 1)]), KEY_UP));
        }
    }
}

/// Once a hold-repeat key is released, ticking sends nothing more for it.
pub proof fn lemma_released_hold_stops(s: EngineState, a: ActionModel, now: u64)
    requires a is HoldRepeat,
    ensures tick_hold_spec(release_spec(s, a).0, now).1 == Seq::<Emitted>::empty(),
{
}

/// A hold-repeat key held for a whole number `n` of periods since it last
/// fired presses its inner action `n` more times at the next tick.
pub proof fn lemma_hold_fires_once_per_period(s: EngineState, now: u64, key: KeyId, last: u64, rate: u32, n: nat)
    requires
        s.hold == Some((key, last, rate)),
        rate > 0,
        s.table.contains_key(key),
        s.table[key] is HoldRepeat,
        now == last + n * rate,
    ensures
        tick_hold_spec(s, now).1 == repeat_events(action_events(*s.table[key]->HoldRepeat_inner, KEY_DOWN), n),
{
    assert((n * rate) / (rate as int) == n) by (nonlinear_arith) requires rate > 0;
}

/// A stick direction resting between the release and press thresholds
/// keeps its state and sends nothing.
pub proof fn lemma_analog_dead_band(s: EngineState, id: KeyId, d: int, ev: RawEvent, now: u64)
    requires ANALOG_RELEASE_TENTHS * 127 < 10 * d < ANALOG_PRESS_TENTHS * 127,
    ensures analog_dir_spec(s, id, d, ev, now) == (s, Seq::<Emitted>::empty()),
{
}

/// Everything a run of macro operations sends, waits aside.
pub open spec fn macro_events(ops: Seq<MacroOpModel>) -> Seq<Emitted>
    decreases ops.len(),
{
    if ops.len() == 0 {
        Seq::empty()
    } else {
        let head = match ops[0] {
            MacroOpModel::Emit { kind, value } => kind_events(kind, value),
            MacroOpModel::Wait(_) => Seq::empty(),
        };
        head + macro_events(ops.drop_first())
    }
}

/// The keystrokes of one macro step: its press, its release, or both.
pub open spec fn step_events(step: MacroStepModel) -> Seq<Emitted> {
    match step.edge {
        Edge::Down => kind_events(step.kind, KEY_DOWN),
        Edge::Up => kind_events(step.kind, KEY_UP),
        Edge::Tap => kind_events(step.kind, KEY_DOWN) + kind_events(step.kind, KEY_UP),
    }
}

pub open spec fn steps_events(steps: Seq<MacroStepModel>) -> Seq<Emitted>
    decreases steps.len(),
{
    if steps.len() == 0 {
        Seq::empty()
    } else {
        steps_events(steps.drop_last()) + step_events(steps.last())
    }
}

proof fn lemma_macro_events_concat(a: Seq<MacroOpModel>, b: Seq<MacroOpModel>)
    ensures macro_events(a + b) == macro_events(a) + macro_events(b),
    decreases a.len(),
{
    if a.len() == 0 {
        assert(a + b =~= b);
        assert(macro_events(a) + macro_events(b) =~= macro_events(b));
    } else {
        assert((a + b).drop_first() =~= a.drop_first() + b);
        lemma_macro_events_concat(a.drop_first(), b);
        let head = match a[0] {
            MacroOpModel::Emit { kind, value } => kind_events(kind, value),
            MacroOpModel::Wait(_) => Seq::<Emitted>::empty(),
        };
        assert(macro_events(a + b) == head + macro_events(a.drop_first() + b));
        assert(head + (macro_events(a.drop_first()) + macro_events(b))
            =~= (head + macro_events(a.drop_first())) + macro_events(b));
    }
}

proof fn lemma_step_ops_events(step: MacroStepModel)
    ensures macro_events(step_ops(step)) == step_events(step),
{
    let ops = step_ops(step);
    reveal_with_fuel(macro_events, 5);
    let edge_ops = match step.edge {
        Edge::Down => seq![MacroOpModel::Emit { kind: step.kind, value: KEY_DOWN }],
        Edge::Up => seq![MacroOpModel::Emit { kind: step.kind, value: KEY_UP }],
        Edge::Tap => seq![
            MacroOpModel::Emit { kind: step.kind, value: KEY_DOWN },
            MacroOpModel::Wait(TAP_HOLD_MS),
            MacroOpModel::Emit { kind: step.kind, value: KEY_UP },
        ],
    };
    assert(macro_events(edge_ops) =~= step_events(step)) by {
        match step.edge {
            Edge::Tap => {
                assert(edge_ops.drop_first().drop_first().drop_first() =~= Seq::<MacroOpModel>::empty());
                assert(edge_ops.drop_first()[0] == MacroOpModel::Wait(TAP_HOLD_MS));
                assert(edge_ops.drop_first().drop_first()[0] == MacroOpModel::Emit { kind: step.kind, value: KEY_UP });
            },
            _ => {
                assert(edge_ops.drop_first() =~= Seq::<MacroOpModel>::empty());
            },
        }
    }
    if step.delay_ms > 0 {
        let wait = seq![MacroOpModel::Wait(step.delay_ms as u64)];
        assert(ops =~= edge_ops + wait);
        lemma_macro_events_concat(edge_ops, wait);
        assert(wait.drop_first() =~= Seq::<MacroOpModel>::empty());
        assert(macro_events(wait) =~= Seq::<Emitted>::empty());
        assert(macro_events(ops) =~= step_events(step));
    }
}

/// Played through, a macro sends each step's keystrokes in order: a
/// press, a release, or a tap's press and release.
pub proof fn lemma_macro_plays_steps_in_order(steps: Seq<MacroStepModel>)
    ensures macro_events(compile_ops(steps)) == steps_events(steps),
    decreases steps.len(),
{
    if steps.len() > 0 {
        lemma_macro_plays_steps_in_order(steps.drop_last());
        lemma_macro_events_concat(compile_ops(steps.drop_last()), step_ops(steps.last()));
        lemma_step_ops_events(steps.last());
    }
}

/// Once its time has come, every remaining operation of a macro plays:
/// nothing is skipped and nothing is sent twice.
pub proof fn lemma_run_macro_to_end(ops: Seq<MacroOpModel>, index: int, due: u64)
    requires 0 <= index <= ops.len(),
    ensures
        run_macro(ops, index, due, u64::MAX).0 == ops.len(),
        run_macro(ops, index, due, u64::MAX).2 == macro_events(ops.skip(index)),
    decreases ops.len() - index,
{
    if index == ops.len() {
        assert(ops.skip(index) =~= Seq::<MacroOpModel>::empty());
    } else {
        assert(ops.skip(index).drop_first() =~= ops.skip(index + 1));
        assert(ops.skip(index)[0] == ops[index]);
        match ops[index] {
            MacroOpModel::Emit { kind, value } => lemma_run_macro_to_end(ops, index + 1, due),
            MacroOpModel::Wait(ms) => lemma_run_macro_to_end(ops, index + 1, sat_add(due, ms)),
        }
    }
}

/// Compiling two runs of steps one after the other is compiling each.
proof fn lemma_compile_ops_concat(a: Seq<MacroStepModel>, b: Seq<MacroStepModel>)
    ensures compile_ops(a + b) == compile_ops(a) + compile_ops(b),
    decreases b.len(),
{
    if b.len() == 0 {
        assert(a + b =~= a);
        assert(compile_ops(b) =~= Seq::<MacroOpModel>::empty());
        assert(compile_ops(a) + compile_ops(b) =~= compile_ops(a));
    } else {
        lemma_compile_ops_concat(a, b.drop_last());
        assert((a + b).drop_last() =~= a + b.drop_last());
        assert((a + b).last() == b.last());
        assert(compile_ops(a + b) =~= compile_ops(a) + compile_ops(b));
    }
}

/// Every step with a delay, whatever its edge, is followed by a wait of
/// that delay before anything of the next step: compiled up to and
/// including step `i`, a macro ends with the wait, and the rest of the
/// macro comes after it.
pub proof fn lemma_step_delay_comes_after_the_step(steps: Seq<MacroStepModel>, i: int)
    requires
        0 <= i < steps.len(),
        steps[i].delay_ms > 0,
    ensures
        compile_ops(steps.take(i + 1)).last() == MacroOpModel::Wait(steps[i].delay_ms as u64),
        compile_ops(steps) == compile_ops(steps.take(i + 1)) + compile_ops(steps.skip(i + 1)),
{
    assert(steps.take(i + 1).drop_last() =~= steps.take(i));
    assert(steps.take(i + 1).last() == steps[i]);
    assert(steps.take(i + 1) + steps.skip(i + 1) =~= steps);
    lemma_compile_ops_concat(steps.take(i + 1), steps.skip(i + 1));
}

/// A macro whose first step presses or releases a key and then waits `d`
/// (holding W for half a second, say): the key press sends that edge
/// alone, and ticks before `d` has passed send nothing more while the
/// macro stays busy. The next step never comes early.
pub proof fn lemma_held_step_waits_its_delay(s: EngineState, key: KeyId, steps: Seq<MacroStepModel>, now: u64, later: u64)
    requires
        !s.macro_busy,
        steps.len() >= 1,
        !(steps[0].edge is Tap),
        steps[0].delay_ms > 0,
        now < u64::MAX,
        now <= later < sat_add(now, steps[0].delay_ms as u64),
    ensures ({
        let (t, out) = press_spec(s, key, ActionModel::Macro { steps }, now);
        &&& out == kind_events(steps[0].kind, if steps[0].edge is Down { KEY_DOWN } else { KEY_UP })
        &&& t.macro_busy
        &&& t.play matches Some(p) && p.due == sat_add(now, steps[0].delay_ms as u64)
        &&& tick_macro_spec(t, later).1 == Seq::<Emitted>::empty()
        &&& tick_macro_spec(t, later).0.macro_busy
    }),
{
    let first = steps[0];
    let ops = compile_ops(steps);
    assert(steps.take(1).drop_last() =~= Seq::<MacroStepModel>::empty());
    assert(steps.take(1).last() == first);
    assert(compile_ops(Seq::<MacroStepModel>::empty()) =~= Seq::<MacroOpModel>::empty());
    assert(compile_ops(steps.take(1)) =~= step_ops(first));
    assert(steps.take(1) + steps.skip(1) =~= steps);
    lemma_compile_ops_concat(steps.take(1), steps.skip(1));
    let v = if first.edge is Down { KEY_DOWN } else { KEY_UP };
    assert(step_ops(first) =~= seq![MacroOpModel::Emit { kind: first.kind, value: v }, MacroOpModel::Wait(first.delay_ms as u64)]);
    assert(ops[0] == MacroOpModel::Emit { kind: first.kind, value: v });
    assert(ops[1] == MacroOpModel::Wait(first.delay_ms as u64));
    let due = sat_add(now, first.delay_ms as u64);
    assert(due > now);
    assert(run_macro(ops, 2, due, now) == (2int, due, Seq::<Emitted>::empty()));
    assert(run_macro(ops, 1, now, now) == run_macro(ops, 2, due, now));
    assert(run_macro(ops, 0, now, now).2 =~= kind_events(first.kind, v));
    assert(run_macro(ops, 2, due, later) == (2int, due, Seq::<Emitted>::empty()));
}

/// The hat's position after an event on one of its axes.
pub open spec fn hat_moved(s: EngineState, ev: RawEvent) -> (i32, i32) {
    if ev.code == ABS_HAT0X { (ev.value, s.hat_y) } else { (s.hat_x, ev.value) }
}

/// When the thumb pad leaves a direction, for another one or for the
/// centre, what it sends begins with that direction's release, and the
/// pad then points where it was moved.
pub proof fn lemma_hat_change_releases_first(s: EngineState, ev: RawEvent, now: u64, d: KeyId)
    requires
        ev.code == ABS_HAT0X || ev.code == ABS_HAT0Y,
        s.hat_dir == Some(d),
        hat_direction(hat_moved(s, ev).0, hat_moved(s, ev).1) != Some(d),
    ensures ({
        let s1 = EngineState { hat_x: hat_moved(s, ev).0, hat_y: hat_moved(s, ev).1, ..s };
        let released = dispatch_spec(s1, d, KEY_UP, ev, now).1;
        &&& hat_spec(s, ev, now).1.len() >= released.len()
        &&& hat_spec(s, ev, now).1.subrange(0, released.len() as int) == released
        &&& hat_spec(s, ev, now).0.hat_dir == hat_direction(hat_moved(s, ev).0, hat_moved(s, ev).1)
    }),
{
    let s1 = EngineState { hat_x: hat_moved(s, ev).0, hat_y: hat_moved(s, ev).1, ..s };
    let s1b = if ev.code == ABS_HAT0X { EngineState { hat_x: ev.value, ..s } } else { EngineState { hat_y: ev.value, ..s } };
    assert(s1b == s1);
    let released = dispatch_spec(s1, d, KEY_UP, ev, now);
    let next = hat_direction(s1.hat_x, s1.hat_y);
    let s2 = EngineState { hat_dir: next, ..released.0 };
    reveal(dispatch_spec);
    match next {
        Some(id) => {
            let pressed = dispatch_spec(s2, id, KEY_DOWN, ev, now);
            assert((released.1 + pressed.1).subrange(0, released.1.len() as int) =~= released.1);
        },
        None => {
            assert(released.1.subrange(0, released.1.len() as int) =~= released.1);
        },
    }
}

/// Pushing the thumb pad one way from the centre and letting it go again
/// presses the key bound to that direction and then releases it, for a
/// plain binding (a key, a combo or a mouse button); the pad is back at
/// the centre.
pub proof fn lemma_hat_push_then_let_go(s: EngineState, ev1: RawEvent, ev2: RawEvent, now1: u64, now2: u64, d: KeyId)
    requires
        is_tartarus(ev1.vid, ev1.pid),
        ev1.ev_type == EV_ABS,
        ev1.code == ABS_HAT0X || ev1.code == ABS_HAT0Y,
        ev2 == (RawEvent { value: 0, ..ev1 }),
        s.hat_x == 0,
        s.hat_y == 0,
        s.hat_dir is None,
        hat_direction(hat_moved(s, ev1).0, hat_moved(s, ev1).1) == Some(d),
        s.table.contains_key(d),
        !(s.table[d] is Macro),
        !(s.table[d] is HoldRepeat),
    ensures ({
        let (s1, o1) = handle_spec(s, ev1, now1);
        let (s2, o2) = handle_spec(s1, ev2, now2);
        &&& o1 == action_events(s.table[d], KEY_DOWN)
        &&& o2 == action_events(s.table[d], KEY_UP)
        &&& s2.hat_dir is None
    }),
{
    reveal(dispatch_spec);
    let (s1, o1) = handle_spec(s, ev1, now1);
    assert(s1.table == s.table);
    assert(s1.hat_dir == Some(d));
    assert(hat_direction(hat_moved(s1, ev2).0, hat_moved(s1, ev2).1) is None);
    assert(o1 =~= action_events(s.table[d], KEY_DOWN));
    let (s2, o2) = handle_spec(s1, ev2, now2);
    assert(o2 =~= action_events(s.table[d], KEY_UP));
}

} // verus!
