//! The daemon's own decisions around the engine: what a physical event is
//! during recording, what the window is told about the device, and when
//! the engine must be swapped.

use vstd::prelude::*;
use crate::constants::{USB_PID_TARTARUS_PRO, USB_PID_TARTARUS_V2, USB_VID_RAZER};
use crate::error::ErrorCode;
use crate::ipc::Method;
use crate::keymap::{button_code, mouse_button_to_evdev, token_code, EV_KEY, EV_REL, REL_WHEEL};
use crate::openrazer::hex4;
use crate::record::RecordReason;
use crate::remap::{RawEvent, KEY_DOWN};
use crate::types::{DeviceModel, KeyToken, MouseButton, MouseTarget, ScrollDir};
use crate::uinput::{code_token, token_from_evdev};

verus! {

/// How often the device loop wakes: every 10 ms while a macro or repeat
/// key needs ticks, else every 250 ms.
pub const TICK_INTERVAL_MS: u64 = 10;
pub const POLL_INTERVAL_MS: u64 = 250;

pub fn idle_sleep_ms(has_timed_work: bool) -> (r: u64)
    ensures r == if has_timed_work { TICK_INTERVAL_MS } else { POLL_INTERVAL_MS },
{
    if has_timed_work { TICK_INTERVAL_MS } else { POLL_INTERVAL_MS }
}

/// The reason a recording ended, as the event names it.
pub open spec fn reason_text(reason: RecordReason) -> Seq<char> {
    match reason {
        RecordReason::Timeout => "timeout"@,
        RecordReason::User => "user"@,
        RecordReason::Disconnected => "disconnected"@,
    }
}

pub fn record_reason_wire(reason: RecordReason) -> (s: &'static str)
    ensures s@ == reason_text(reason),
{
    match reason {
        RecordReason::Timeout => "timeout",
        RecordReason::User => "user",
        RecordReason::Disconnected => "disconnected",
    }
}

/// The mouse button a code stands for.
pub open spec fn code_button(code: u16) -> Option<MouseButton> {
    if code == button_code(MouseButton::Left) {
        Some(MouseButton::Left)
    } else if code == button_code(MouseButton::Right) {
        Some(MouseButton::Right)
    } else if code == button_code(MouseButton::Middle) {
        Some(MouseButton::Middle)
    } else if code == button_code(MouseButton::Back) {
        Some(MouseButton::Back)
    } else if code == button_code(MouseButton::Forward) {
        Some(MouseButton::Forward)
    } else {
        None
    }
}

pub fn mouse_button_from_code(code: u16) -> (r: Option<MouseButton>)
    ensures r == code_button(code),
{
    if mouse_button_to_evdev(MouseButton::Left) == code {
        Some(MouseButton::Left)
    } else if mouse_button_to_evdev(MouseButton::Right) == code {
        Some(MouseButton::Right)
    } else if mouse_button_to_evdev(MouseButton::Middle) == code {
        Some(MouseButton::Middle)
    } else if mouse_button_to_evdev(MouseButton::Back) == code {
        Some(MouseButton::Back)
    } else if mouse_button_to_evdev(MouseButton::Forward) == code {
        Some(MouseButton::Forward)
    } else {
        None
    }
}

/// What a physical event records as: a wheel step, a mouse button, or a
/// key with no modifiers.
#[derive(Debug, Clone, Copy, PartialEq, Eq, Structural)]
pub enum Capture {
    Mouse(MouseTarget),
    Key(KeyToken),
}

pub open spec fn capture_of(ev: RawEvent) -> Option<Capture> {
    if ev.ev_type == EV_REL && ev.code == REL_WHEEL {
        Some(Capture::Mouse(MouseTarget::Scroll {
            scroll: if ev.value > 0 { ScrollDir::Up } else { ScrollDir::Down },
        }))
    } else if ev.ev_type == EV_KEY {
        match code_button(ev.code) {
            Some(b) => Some(Capture::Mouse(MouseTarget::Button { button: b })),
            None => match code_token(ev.code) {
                Some(t) => Some(Capture::Key(t)),
                None => None,
            },
        }
    } else {
        None
    }
}

pub fn capture_from_event(ev: &RawEvent) -> (r: Option<Capture>)
    ensures r == capture_of(*ev),
{
    if ev.ev_type == EV_REL && ev.code == REL_WHEEL {
        let scroll = if ev.value > 0 { ScrollDir::Up } else { ScrollDir::Down };
        return Some(Capture::Mouse(MouseTarget::Scroll { scroll }));
    }
    if ev.ev_type == EV_KEY {
        if let Some(button) = mouse_button_from_code(ev.code) {
            return Some(Capture::Mouse(MouseTarget::Button { button }));
        }
        if let Some(key) = token_from_evdev(ev.code) {
            return Some(Capture::Key(key));
        }
    }
    None
}

/// Where a physical event goes: while recording, a press that can be
/// captured is submitted as the recording; anything else is remapped.
#[derive(Debug, Clone, Copy, PartialEq, Eq, Structural)]
pub enum PhysicalRoute {
    Record(Capture),
    Remap,
}

pub open spec fn route_of(recording: bool, ev: RawEvent) -> PhysicalRoute {
    if recording && ev.value == KEY_DOWN {
        match capture_of(ev) {
            Some(c) => PhysicalRoute::Record(c),
            None => PhysicalRoute::Remap,
        }
    } else {
        PhysicalRoute::Remap
    }
}

pub fn route_physical_event(recording: bool, ev: &RawEvent) -> (r: PhysicalRoute)
    ensures r == route_of(recording, *ev),
{
    if recording && ev.value == KEY_DOWN {
        if let Some(c) = capture_from_event(ev) {
            return PhysicalRoute::Record(c);
        }
    }
    PhysicalRoute::Remap
}

/// A USB id as four lowercase hexadecimal digits.
pub fn usb_id_hex(id: u16) -> (s: String)
    ensures s@ == hex4(id, false),
{
    let mut out: Vec<char> = Vec::new();
    out.push(crate::text::hex_digit((id / 4096) as u8, false));
    out.push(crate::text::hex_digit(((id / 256) % 16) as u8, false));
    out.push(crate::text::hex_digit(((id / 16) % 16) as u8, false));
    out.push(crate::text::hex_digit((id % 16) as u8, false));
    assert(out@ =~= hex4(id, false));
    crate::text::from_chars(&out)
}

/// What a device-changed event carries: whether a pad is there, its
/// model, and its ids in hexadecimal when the model is known.
pub struct DeviceEventParams {
    pub present: bool,
    pub model: Option<DeviceModel>,
    pub vid: Option<String>,
    pub pid: Option<String>,
}

pub open spec fn opt_view(s: Option<String>) -> Option<Seq<char>> {
    match s {
        Some(s) => Some(s@),
        None => None,
    }
}

pub fn device_event_params(present: bool, model: Option<DeviceModel>) -> (p: DeviceEventParams)
    ensures
        p.present == present,
        p.model == (if present { model } else { None }),
        opt_view(p.vid) == (if present && model is Some { Some(hex4(USB_VID_RAZER, false)) } else { None }),
        opt_view(p.pid) == match (present, model) {
            (true, Some(DeviceModel::V2)) => Some(hex4(USB_PID_TARTARUS_V2, false)),
            (true, Some(DeviceModel::Pro)) => Some(hex4(USB_PID_TARTARUS_PRO, false)),
            _ => None,
        },
{
    if !present {
        return DeviceEventParams { present: false, model: None, vid: None, pid: None };
    }
    match model {
        Some(DeviceModel::V2) => DeviceEventParams {
            present: true,
            model: Some(DeviceModel::V2),
            vid: Some(usb_id_hex(USB_VID_RAZER)),
            pid: Some(usb_id_hex(USB_PID_TARTARUS_V2)),
        },
        Some(DeviceModel::Pro) => DeviceEventParams {
            present: true,
            model: Some(DeviceModel::Pro),
            vid: Some(usb_id_hex(USB_VID_RAZER)),
            pid: Some(usb_id_hex(USB_PID_TARTARUS_PRO)),
        },
        None => DeviceEventParams { present: true, model: None, vid: None, pid: None },
    }
}

/// After a failed grab the pad is present; its input is readable only
/// when the failure was a conflict with another program.
pub fn evdev_ok_after_grab_failure(code: ErrorCode) -> (r: bool)
    ensures r == (code == ErrorCode::GrabConflict),
{
    code == ErrorCode::GrabConflict
}

/// The requests that build a new engine from the profile.
pub open spec fn replaces_engine(m: Method) -> bool {
    m == Method::ApplyProfile || m == Method::SetBinding || m == Method::ClearBinding
        || m == Method::RevertProfile || m == Method::SubmitRecord
}

pub fn method_replaces_engine(method: Method) -> (r: bool)
    ensures r == replaces_engine(method),
{
    match method {
        Method::ApplyProfile | Method::SetBinding | Method::ClearBinding | Method::RevertProfile
        | Method::SubmitRecord => true,
        _ => false,
    }
}

/// A count of engine replacements. An engine taken out to handle an event
/// goes back only if the count has not moved meanwhile.
pub struct EngineEpoch {
    value: u64,
}

impl View for EngineEpoch {
    type V = u64;

    closed spec fn view(&self) -> u64 {
        self.value
    }
}

impl EngineEpoch {
    pub fn new() -> (e: Self)
        ensures e@ == 0,
    {
        EngineEpoch { value: 0 }
    }

    pub fn load(&self) -> (v: u64)
        ensures v == self@,
    {
        self.value
    }

    /// One step on; the count wraps past the top as an atomic add does.
    pub fn bump(&mut self)
        ensures final(self)@ == old(self)@.wrapping_add(1),
    {
        self.value = self.value.wrapping_add(1);
    }
}

impl Default for EngineEpoch {
    fn default() -> (e: Self)
        ensures e@ == 0,
    {
        EngineEpoch::new()
    }
}

/// The epoch moves on only after a successful request that built a new
/// engine.
pub open spec fn bumps_epoch(ok: bool, method: Option<Method>) -> bool {
    ok && (method matches Some(m) && replaces_engine(m))
}

pub fn commit_if_engine_replaced(ok: bool, method: Option<Method>, epoch: &mut EngineEpoch)
    ensures
        final(epoch)@ == if bumps_epoch(ok, method) {
            old(epoch)@.wrapping_add(1)
        } else {
            old(epoch)@
        },
{
    let replaced = match method {
        Some(m) => ok && method_replaces_engine(m),
        None => false,
    };
    if replaced {
        epoch.bump();
    }
}

/// An engine taken out while a request was handled goes back exactly when
/// that request did not build a new engine: the epoch it was taken at is
/// then still the current one.
pub proof fn lemma_epoch_guards_the_engine(at_take: u64, ok: bool, method: Option<Method>)
    ensures
        (if bumps_epoch(ok, method) { at_take.wrapping_add(1) } else { at_take } == at_take)
            <==> !bumps_epoch(ok, method),
{
}

/// An engine taken out to handle an event goes back only if no request
/// replaced the engine meanwhile.
pub fn engine_still_current(epoch_now: u64, epoch_at_take: u64) -> (r: bool)
    ensures r == (epoch_now == epoch_at_take),
{
    epoch_now == epoch_at_take
}

/// A capture of a key the pad can send is what a keycap shows for it.
pub proof fn lemma_capture_reads_back(t: KeyToken)
    requires code_button(token_code(t)) is None,
    ensures capture_of(RawEvent { vid: 0, pid: 0, ev_type: EV_KEY, code: token_code(t), value: KEY_DOWN })
        == Some(Capture::Key(t)),
{
    crate::uinput::lemma_code_token_inverts(t);
}

/// The log file is kept under one mebibyte.
pub const LOG_MAX_BYTES: u64 = 1048576;
/// What the log records for a failed lighting write.
pub const LIGHTING_ERROR_TOKEN: &'static str = "lighting_error";
/// The one older log kept is the file's name with this added.
pub const LOG_ROTATED_SUFFIX: &'static str = ".1";

/// A line that would take a non-empty log past its limit first moves the
/// log aside.
pub fn log_should_rotate(current_len: u64, line_len: u64) -> (r: bool)
    ensures r == (current_len > 0 && current_len + line_len > LOG_MAX_BYTES),
{
    current_len > 0 && current_len.saturating_add(line_len) > LOG_MAX_BYTES
}

/// What a successful reply says that the events after it need: the id it
/// names, and for a stopped recording whether one was cancelled.
#[derive(Debug, Clone)]
pub struct ReplyFacts {
    pub id: Option<String>,
    pub cancelled: bool,
}

/// An event the daemon sends every window after a request.
#[derive(Debug, Clone, PartialEq, Eq)]
pub enum Announcement {
    DaemonStopping,
    ProfileApplied(String),
    /// The recording's result, which the reply carries.
    Recorded,
    /// A recording the user stopped.
    RecordCancelled,
}

pub enum AnnouncementView {
    DaemonStopping,
    ProfileApplied(Seq<char>),
    Recorded,
    RecordCancelled,
}

pub open spec fn announcement_view(a: Announcement) -> AnnouncementView {
    match a {
        Announcement::DaemonStopping => AnnouncementView::DaemonStopping,
        Announcement::ProfileApplied(id) => AnnouncementView::ProfileApplied(id@),
        Announcement::Recorded => AnnouncementView::Recorded,
        Announcement::RecordCancelled => AnnouncementView::RecordCancelled,
    }
}

/// The requests that change a profile: each names it in its reply.
pub open spec fn edits_profile(m: Method) -> bool {
    m == Method::ApplyProfile || m == Method::SetBinding || m == Method::ClearBinding
        || m == Method::SetLighting || m == Method::RevertProfile
}

pub open spec fn applied(id: Option<String>) -> Seq<AnnouncementView> {
    match id {
        Some(i) => seq![AnnouncementView::ProfileApplied(i@)],
        None => Seq::empty(),
    }
}

/// The events after a request. `reply` is the successful reply's facts,
/// none for a refused request; `active_id` the profile active once the
/// request was handled. A quit announces the stop whatever the reply; a
/// profile edit names the edited profile; a recording sends its result and
/// then the active profile, which now holds it; a stop that cancelled a
/// recording says the user did it.
pub open spec fn announcements(method: Option<Method>, reply: Option<ReplyFacts>, active_id: Option<String>) -> Seq<AnnouncementView> {
    match method {
        Some(Method::QuitDaemon) => seq![AnnouncementView::DaemonStopping],
        Some(m) => match reply {
            None => Seq::empty(),
            Some(facts) => if edits_profile(m) {
                applied(facts.id)
            } else if m == Method::SubmitRecord {
                seq![AnnouncementView::Recorded] + applied(active_id)
            } else if m == Method::StopRecord && facts.cancelled {
                seq![AnnouncementView::RecordCancelled]
            } else {
                Seq::empty()
            },
        },
        None => Seq::empty(),
    }
}

fn applied_exec(id: &Option<String>) -> (r: Vec<Announcement>)
    ensures r@.map_values(|a: Announcement| announcement_view(a)) == applied(*id),
{
    let mut r: Vec<Announcement> = Vec::new();
    match id {
        Some(i) => {
            r.push(Announcement::ProfileApplied(i.clone()));
            assert(r@.map_values(|a: Announcement| announcement_view(a)) =~= applied(*id));
        },
        None => {
            assert(r@.map_values(|a: Announcement| announcement_view(a)) =~= applied(*id));
        },
    }
    r
}

pub fn announcements_after(method: Option<Method>, reply: Option<ReplyFacts>, active_id: Option<String>) -> (r: Vec<Announcement>)
    ensures r@.map_values(|a: Announcement| announcement_view(a)) == announcements(method, reply, active_id),
{
    let ghost want = announcements(method, reply, active_id);
    let mut r: Vec<Announcement> = Vec::new();
    match method {
        Some(Method::QuitDaemon) => {
            r.push(Announcement::DaemonStopping);
        },
        Some(m) => match reply {
            None => {},
            Some(facts) => {
                let edits = match m {
                    Method::ApplyProfile | Method::SetBinding | Method::ClearBinding
                    | Method::SetLighting | Method::RevertProfile => true,
                    _ => false,
                };
                if edits {
                    r = applied_exec(&facts.id);
                } else if m == Method::SubmitRecord {
                    r.push(Announcement::Recorded);
                    let mut rest = applied_exec(&active_id);
                    r.append(&mut rest);
                    assert(r@.map_values(|a: Announcement| announcement_view(a))
                        =~= seq![AnnouncementView::Recorded] + applied(active_id));
                } else if m == Method::StopRecord && facts.cancelled {
                    r.push(Announcement::RecordCancelled);
                }
            },
        },
        None => {},
    }
    assert(r@.map_values(|a: Announcement| announcement_view(a)) =~= want);
    r
}

/// Only a quit request stops the daemon.
pub fn quits_after(method: Option<Method>) -> (r: bool)
    ensures r == (method == Some(Method::QuitDaemon)),
{
    match method {
        Some(Method::QuitDaemon) => true,
        _ => false,
    }
}

/// What the daemon knows of the keypad: whether one is there, its model,
/// whether its input can be read, and the program holding it, if known.
#[derive(Debug, Clone)]
pub struct DeviceFacts {
    pub present: bool,
    pub model: Option<DeviceModel>,
    pub evdev_ok: bool,
    pub grab_conflict: Option<String>,
}

/// What the device loop sees happen to the keypad.
#[derive(Debug, Clone, Copy, PartialEq, Eq, Structural)]
pub enum DeviceChange {
    /// Found and grabbed; `readable` tells whether all its nodes open.
    Appeared { model: DeviceModel, readable: bool },
    /// Found, but grabbing it failed with `code`.
    GrabFailed { model: DeviceModel, code: ErrorCode },
    /// Its nodes are gone.
    Vanished,
}

/// The facts after a change: a keypad found is present with its model, a
/// grab failure leaves its input readable only for a conflict, a vanished
/// one is absent with no model, and no change names a holder. What the
/// input readability was stays when the keypad goes.
pub open spec fn device_facts_after(f: DeviceFacts, c: DeviceChange) -> DeviceFacts {
    match c {
        DeviceChange::Appeared { model, readable } =>
            DeviceFacts { present: true, model: Some(model), evdev_ok: readable, grab_conflict: None },
        DeviceChange::GrabFailed { model, code } =>
            DeviceFacts { present: true, model: Some(model), evdev_ok: code == ErrorCode::GrabConflict, grab_conflict: None },
        DeviceChange::Vanished =>
            DeviceFacts { present: false, model: None, evdev_ok: f.evdev_ok, grab_conflict: None },
    }
}

pub fn device_step(facts: DeviceFacts, change: DeviceChange) -> (r: DeviceFacts)
    ensures r == device_facts_after(facts, change),
{
    match change {
        DeviceChange::Appeared { model, readable } =>
            DeviceFacts { present: true, model: Some(model), evdev_ok: readable, grab_conflict: None },
        DeviceChange::GrabFailed { model, code } =>
            DeviceFacts { present: true, model: Some(model), evdev_ok: evdev_ok_after_grab_failure(code), grab_conflict: None },
        DeviceChange::Vanished =>
            DeviceFacts { present: false, model: None, evdev_ok: facts.evdev_ok, grab_conflict: None },
    }
}

} // verus!
