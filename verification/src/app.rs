//! The window's state and how each message moves it: what the banner,
//! the status bar and the header pill say, and which requests go to the
//! daemon. The window system and the socket stay outside; they hand in
//! messages and carry out the effects `App::update` returns.

use vstd::prelude::*;
use crate::error::{error_user_message, ErrorCode};
use crate::ipc::{EventMethod, Method, WireError};
use crate::labels::{custom_ids, id_texts, present_shipped, profile_row_order};
use crate::pack::shipped_ids;
use crate::profile::{Bindings, Profile};
use crate::requests::opt_text;
use crate::constants::{HOLD_REPEAT_RATE_DEFAULT_MS, MACRO_MAX_DELAY_MS, MACRO_MAX_STEPS, RECORD_TIMEOUT_MS};
use crate::text::{chars_of, decimal_u32, from_chars, parse_u32, str_eq, trim_chars, trim_seq};
use crate::types::{
    steps_model, Action, ActionModel, DeviceModel, Edge, KeyId, KeyToken, Lighting, LightingEffect, MacroKind,
    MacroKindModel, MacroStep, MacroStepModel, Modifier, MouseTarget,
};
use crate::ui::{
    conflict_name, could_not_start_message, could_not_start_text, grab_conflict_name, Banner,
    capture_window_key, close_action, held_modifiers, uses_color, CloseAction, map_key_token, map_modifiers, window_key_token, EffectChoice, KeyCapture,
    effect_uses_color, MenuEntry, ModifierState, NamedKey, Phase, ProfileRow, Tab, WindowKey, menu_entries_for,
};

verus! {

pub const START_REASON_TRAY_DID_NOT_START: &'static str = "The tray didn\u{2019}t start.";
pub const STATUS_LIGHTING_SAVED: &'static str = "Lighting saved";
pub const STATUS_APPLIED_SUFFIX: &'static str = " applied";
pub const STATUS_READY: &'static str = "Ready";
pub const DEVICE_CONNECTED_V2: &'static str = "Tartarus V2 connected";
pub const DEVICE_CONNECTED_PRO: &'static str = "Tartarus Pro connected";
pub const DEVICE_NOT_CONNECTED: &'static str = "Not connected";
pub const DEFAULT_BRIGHTNESS: u8 = 80;
pub const BRIGHTNESS_MAX: u8 = 100;
pub const DEFAULT_LIGHT_COLOR: [u8; 3] = [255, 255, 255];
/// The swatch a profile row shows when its profile has no colour.
pub const FALLBACK_SWATCH: [u8; 3] = [0x6f, 0x6f, 0x80];

/// The mathematical value of a [`ProfileRow`].
pub struct RowView {
    pub id: Seq<char>,
    pub name: Seq<char>,
    pub is_active: bool,
    pub can_revert: bool,
    pub can_delete: bool,
    pub color: Option<[u8; 3]>,
}

impl View for ProfileRow {
    type V = RowView;

    open spec fn view(&self) -> RowView {
        RowView {
            id: self.id@,
            name: self.name@,
            is_active: self.is_active,
            can_revert: self.can_revert,
            can_delete: self.can_delete,
            color: self.color,
        }
    }
}

pub open spec fn rows_view(rows: Seq<ProfileRow>) -> Seq<RowView> {
    rows.map_values(|r: ProfileRow| r@)
}

/// The window's state.
pub struct App {
    pub phase: Phase,
    pub profiles: Vec<ProfileRow>,
    pub active_profile_id: Option<String>,
    pub selected_profile_id: Option<String>,
    pub device_present: bool,
    pub ever_present: bool,
    pub model: Option<DeviceModel>,
    pub openrazer: bool,
    pub evdev_ok: bool,
    pub uinput_ok: bool,
    pub grab_conflict: Option<String>,
    pub bindings: Bindings,
    pub lighting: Lighting,
    pub selected_key: Option<KeyId>,
    pub combo_text: String,
    pub combo_focused: bool,
    pub recording: bool,
    pub after_fix_permissions: bool,
    pub last_error: Option<String>,
    pub hidden: bool,
    pub tab: Tab,
    pub menu_open: bool,
    pub hovered_key: Option<KeyId>,
    pub lighting_saved: bool,
    /// `Some` while the name box under the profile list is open; the text
    /// typed so far.
    pub new_profile_name: Option<String>,
}

/// The mathematical value of an [`App`].
pub struct AppView {
    pub phase: Phase,
    pub profiles: Seq<RowView>,
    pub active_profile_id: Option<Seq<char>>,
    pub selected_profile_id: Option<Seq<char>>,
    pub device_present: bool,
    pub ever_present: bool,
    pub model: Option<DeviceModel>,
    pub openrazer: bool,
    pub evdev_ok: bool,
    pub uinput_ok: bool,
    pub grab_conflict: Option<Seq<char>>,
    pub bindings: Map<KeyId, ActionModel>,
    pub lighting: Lighting,
    pub selected_key: Option<KeyId>,
    pub combo_text: Seq<char>,
    pub combo_focused: bool,
    pub recording: bool,
    pub after_fix_permissions: bool,
    pub last_error: Option<Seq<char>>,
    pub hidden: bool,
    pub tab: Tab,
    pub menu_open: bool,
    pub hovered_key: Option<KeyId>,
    pub lighting_saved: bool,
    pub new_profile_name: Option<Seq<char>>,
}

impl View for App {
    type V = AppView;

    open spec fn view(&self) -> AppView {
        AppView {
            phase: self.phase,
            profiles: rows_view(self.profiles@),
            active_profile_id: opt_text(self.active_profile_id),
            selected_profile_id: opt_text(self.selected_profile_id),
            device_present: self.device_present,
            ever_present: self.ever_present,
            model: self.model,
            openrazer: self.openrazer,
            evdev_ok: self.evdev_ok,
            uinput_ok: self.uinput_ok,
            grab_conflict: opt_text(self.grab_conflict),
            bindings: self.bindings@,
            lighting: self.lighting,
            selected_key: self.selected_key,
            combo_text: self.combo_text@,
            combo_focused: self.combo_focused,
            recording: self.recording,
            after_fix_permissions: self.after_fix_permissions,
            last_error: opt_text(self.last_error),
            hidden: self.hidden,
            tab: self.tab,
            menu_open: self.menu_open,
            hovered_key: self.hovered_key,
            lighting_saved: self.lighting_saved,
            new_profile_name: opt_text(self.new_profile_name),
        }
    }
}

/// A fresh window: connecting, nothing known, permissions assumed fine,
/// lighting off at the default brightness.
pub open spec fn initial_view() -> AppView {
    AppView {
        phase: Phase::Connecting,
        profiles: Seq::empty(),
        active_profile_id: None,
        selected_profile_id: None,
        device_present: false,
        ever_present: false,
        model: None,
        openrazer: false,
        evdev_ok: true,
        uinput_ok: true,
        grab_conflict: None,
        bindings: Map::empty(),
        lighting: Lighting { effect: LightingEffect::Off, brightness: DEFAULT_BRIGHTNESS, color: None },
        selected_key: None,
        combo_text: Seq::empty(),
        combo_focused: false,
        recording: false,
        after_fix_permissions: false,
        last_error: None,
        hidden: false,
        tab: Tab::Keys,
        menu_open: false,
        hovered_key: None,
        lighting_saved: false,
        new_profile_name: None,
    }
}

impl Default for App {
    fn default() -> (a: App)
        ensures a@ == initial_view(),
    {
        let a = App {
            phase: Phase::Connecting,
            profiles: Vec::new(),
            active_profile_id: None,
            selected_profile_id: None,
            device_present: false,
            ever_present: false,
            model: None,
            openrazer: false,
            evdev_ok: true,
            uinput_ok: true,
            grab_conflict: None,
            bindings: Bindings::new(),
            lighting: Lighting { effect: LightingEffect::Off, brightness: DEFAULT_BRIGHTNESS, color: None },
            selected_key: None,
            combo_text: String::new(),
            combo_focused: false,
            recording: false,
            after_fix_permissions: false,
            last_error: None,
            hidden: false,
            tab: Tab::Keys,
            menu_open: false,
            hovered_key: None,
            lighting_saved: false,
            new_profile_name: None,
        };
        assert(a@.profiles =~= Seq::<RowView>::empty());
        a
    }
}

/// The mathematical value of a [`Banner`].
pub enum BannerView {
    Starting,
    CouldNotStart(Seq<char>),
    NoDevice,
    Permission,
    Disconnect,
    GrabConflict { name: Option<Seq<char>> },
    UnplugAfterFix,
    SignOut,
    Other(Seq<char>),
}

impl View for Banner {
    type V = BannerView;

    open spec fn view(&self) -> BannerView {
        match self {
            Banner::Starting => BannerView::Starting,
            Banner::CouldNotStart(r) => BannerView::CouldNotStart(r@),
            Banner::NoDevice => BannerView::NoDevice,
            Banner::Permission => BannerView::Permission,
            Banner::Disconnect => BannerView::Disconnect,
            Banner::GrabConflict { name } => BannerView::GrabConflict { name: opt_text(*name) },
            Banner::UnplugAfterFix => BannerView::UnplugAfterFix,
            Banner::SignOut => BannerView::SignOut,
            Banner::Other(m) => BannerView::Other(m@),
        }
    }
}

pub open spec fn opt_banner(b: Option<Banner>) -> Option<BannerView> {
    match b {
        Some(b) => Some(b@),
        None => None,
    }
}

/// The banner: none while the window is hidden; while starting, or when
/// the daemon could not start, that; once running, the first of a grab
/// conflict, a permission problem, a missing pad and a request error.
/// After the permission fix, the pad must be replugged, or, when input is
/// still unreadable, the user must sign out and in.
pub open spec fn banner_spec(a: AppView) -> Option<BannerView> {
    if a.hidden {
        None
    } else {
        match a.phase {
            Phase::Connecting => Some(BannerView::Starting),
            Phase::FailedStart => Some(BannerView::CouldNotStart(match a.last_error {
                Some(e) => e,
                None => could_not_start_text(START_REASON_TRAY_DID_NOT_START@),
            })),
            Phase::Running => match a.grab_conflict {
                Some(raw) => Some(BannerView::GrabConflict { name: conflict_name(raw) }),
                None => if !a.evdev_ok || !a.uinput_ok {
                    if a.after_fix_permissions && !a.evdev_ok {
                        Some(BannerView::SignOut)
                    } else if a.after_fix_permissions {
                        Some(BannerView::UnplugAfterFix)
                    } else {
                        Some(BannerView::Permission)
                    }
                } else if !a.device_present {
                    if a.after_fix_permissions {
                        Some(BannerView::UnplugAfterFix)
                    } else if a.ever_present {
                        Some(BannerView::Disconnect)
                    } else {
                        Some(BannerView::NoDevice)
                    }
                } else {
                    match a.last_error {
                        Some(m) => Some(BannerView::Other(m)),
                        None => None,
                    }
                },
            },
        }
    }
}

/// The name of the first row from `i` on with this id.
pub open spec fn row_name_from(rows: Seq<RowView>, id: Seq<char>, i: int) -> Option<Seq<char>>
    decreases rows.len() - i,
{
    if i < 0 || i >= rows.len() {
        None
    } else if rows[i].id == id {
        Some(rows[i].name)
    } else {
        row_name_from(rows, id, i + 1)
    }
}

/// The active profile's name, as its row shows it.
pub open spec fn active_name_spec(a: AppView) -> Option<Seq<char>> {
    match a.active_profile_id {
        Some(id) => row_name_from(a.profiles, id, 0),
        None => None,
    }
}

/// The status bar: a lighting change wins over the active profile's name.
pub open spec fn status_text(a: AppView) -> Seq<char> {
    if a.lighting_saved {
        STATUS_LIGHTING_SAVED@
    } else {
        match active_name_spec(a) {
            Some(n) => n + STATUS_APPLIED_SUFFIX@,
            None => STATUS_READY@,
        }
    }
}

/// The header pill: the model when a known pad is present.
pub open spec fn pill_text(a: AppView) -> Seq<char> {
    if !a.device_present {
        DEVICE_NOT_CONNECTED@
    } else {
        match a.model {
            Some(DeviceModel::V2) => DEVICE_CONNECTED_V2@,
            Some(DeviceModel::Pro) => DEVICE_CONNECTED_PRO@,
            None => DEVICE_NOT_CONNECTED@,
        }
    }
}

/// The profile edits go to: the active one, else the selected one.
pub open spec fn profile_id_spec(a: AppView) -> Option<Seq<char>> {
    match a.active_profile_id {
        Some(id) => Some(id),
        None => a.selected_profile_id,
    }
}

/// What the selected key is bound to.
pub open spec fn selected_action_spec(a: AppView) -> Option<ActionModel> {
    match a.selected_key {
        Some(k) => if a.bindings.contains_key(k) { Some(a.bindings[k]) } else { None },
        None => None,
    }
}

pub open spec fn opt_action(a: Option<Action>) -> Option<ActionModel> {
    match a {
        Some(a) => Some(a@),
        None => None,
    }
}

pub open spec fn opt_str(s: Option<&str>) -> Option<Seq<char>> {
    match s {
        Some(s) => Some(s@),
        None => None,
    }
}

fn copy_text(s: &Option<String>) -> (r: Option<String>)
    ensures opt_text(r) == opt_text(*s),
{
    match s {
        Some(t) => Some(t.clone()),
        None => None,
    }
}

impl App {
    pub fn banner(&self) -> (r: Option<Banner>)
        ensures opt_banner(r) == banner_spec(self@),
    {
        if self.hidden {
            return None;
        }
        match self.phase {
            Phase::Connecting => Some(Banner::Starting),
            Phase::FailedStart => Some(Banner::CouldNotStart(match &self.last_error {
                Some(e) => e.clone(),
                None => could_not_start_message(START_REASON_TRAY_DID_NOT_START),
            })),
            Phase::Running => {
                if let Some(stored) = &self.grab_conflict {
                    Some(Banner::GrabConflict { name: grab_conflict_name(stored.as_str()) })
                } else if !self.evdev_ok || !self.uinput_ok {
                    if self.after_fix_permissions && !self.evdev_ok {
                        Some(Banner::SignOut)
                    } else if self.after_fix_permissions {
                        Some(Banner::UnplugAfterFix)
                    } else {
                        Some(Banner::Permission)
                    }
                } else if !self.device_present {
                    if self.after_fix_permissions {
                        Some(Banner::UnplugAfterFix)
                    } else if self.ever_present {
                        Some(Banner::Disconnect)
                    } else {
                        Some(Banner::NoDevice)
                    }
                } else if let Some(msg) = &self.last_error {
                    Some(Banner::Other(msg.clone()))
                } else {
                    None
                }
            },
        }
    }

    /// The active profile's name, read from the rows rather than the id,
    /// so the status bar shows what the sidebar shows.
    pub fn active_profile_name(&self) -> (r: Option<&str>)
        ensures opt_str(r) == active_name_spec(self@),
    {
        let id = match &self.active_profile_id {
            Some(id) => id.as_str(),
            None => return None,
        };
        let ghost rows = self@.profiles;
        let mut i: usize = 0;
        while i < self.profiles.len()
            invariant
                i <= self.profiles.len(),
                rows == rows_view(self.profiles@),
                self@.active_profile_id == Some(id@),
                row_name_from(rows, id@, 0) == row_name_from(rows, id@, i as int),
            decreases self.profiles.len() - i,
        {
            let row = &self.profiles[i];
            assert(rows[i as int] == self.profiles@[i as int]@);
            if str_eq(row.id.as_str(), id) {
                return Some(row.name.as_str());
            }
            i += 1;
        }
        None
    }

    pub fn status_line(&self) -> (s: String)
        ensures s@ == status_text(self@),
    {
        if self.lighting_saved {
            return STATUS_LIGHTING_SAVED.to_owned();
        }
        match self.active_profile_name() {
            Some(name) => {
                let mut out = chars_of(name);
                let suffix = chars_of(STATUS_APPLIED_SUFFIX);
                let ghost head = out@;
                let mut i: usize = 0;
                while i < suffix.len()
                    invariant i <= suffix.len(), out@ == head + suffix@.take(i as int),
                    decreases suffix.len() - i,
                {
                    out.push(suffix[i]);
                    i += 1;
                    assert(out@ =~= head + suffix@.take(i as int));
                }
                assert(suffix@.take(suffix.len() as int) =~= suffix@);
                from_chars(&out)
            },
            None => STATUS_READY.to_owned(),
        }
    }

    /// A present pad of unknown model reads as absent: the window cannot
    /// name what it draws.
    pub fn device_pill_text(&self) -> (s: &'static str)
        ensures s@ == pill_text(self@),
    {
        if !self.device_present {
            return DEVICE_NOT_CONNECTED;
        }
        match self.model {
            Some(DeviceModel::V2) => DEVICE_CONNECTED_V2,
            Some(DeviceModel::Pro) => DEVICE_CONNECTED_PRO,
            None => DEVICE_NOT_CONNECTED,
        }
    }

    pub fn selected_action(&self) -> (r: Option<Action>)
        ensures opt_action(r) == selected_action_spec(self@),
    {
        match self.selected_key {
            Some(k) => match self.bindings.get(k) {
                Some(a) => Some(a.duplicate()),
                None => None,
            },
            None => None,
        }
    }

    pub fn profile_id(&self) -> (r: Option<String>)
        ensures opt_text(r) == profile_id_spec(self@),
    {
        match &self.active_profile_id {
            Some(id) => Some(id.clone()),
            None => copy_text(&self.selected_profile_id),
        }
    }

    /// The keypad fades while a pad that was seen is gone.
    pub fn keypad_faded(&self) -> (r: bool)
        ensures r == (self.ever_present && !self.device_present),
    {
        self.ever_present && !self.device_present
    }

    /// Under the lighting panel, once running: nothing while a lighting
    /// backend is there, else why lighting is unavailable.
    pub fn lighting_footer_message(&self) -> (r: Option<&'static str>)
        ensures
            opt_str(r) == if self.phase != Phase::Running || self.openrazer {
                None::<Seq<char>>
            } else {
                Some(error_user_message(ErrorCode::Lighting))
            },
    {
        if self.phase != Phase::Running {
            return None;
        }
        if self.openrazer {
            None
        } else {
            Some(ErrorCode::Lighting.user_message())
        }
    }
}

/// The header menu: the repair only while the permission banner shows,
/// and quit last.
pub fn menu_entries(app: &App) -> (r: Vec<MenuEntry>)
    ensures
        r@ == if banner_spec(app@) == Some(BannerView::Permission) {
            seq![MenuEntry::FixPermissions, MenuEntry::Quit]
        } else {
            seq![MenuEntry::Quit]
        },
{
    let permission = match app.banner() {
        Some(Banner::Permission) => true,
        _ => false,
    };
    menu_entries_for(permission)
}

/// The lighting controls take input only once the daemon runs and a
/// lighting backend answered.
pub fn lighting_is_editable(app: &App) -> (r: bool)
    ensures r == (app.phase == Phase::Running && app.openrazer),
{
    app.phase == Phase::Running && app.openrazer
}

/// A row reads as selected when it was clicked or is the applied profile.
pub fn row_is_selected(app: &App, row: &ProfileRow) -> (r: bool)
    ensures r == (app@.selected_profile_id == Some(row.id@) || row.is_active),
{
    let clicked = match &app.selected_profile_id {
        Some(id) => str_eq(id.as_str(), row.id.as_str()),
        None => false,
    };
    clicked || row.is_active
}

/// Only a profile the user made can be deleted.
pub fn row_is_deletable(row: &ProfileRow) -> (r: bool)
    ensures r == row.can_delete,
{
    row.can_delete
}

pub fn profile_swatch_color(row: &ProfileRow) -> (c: [u8; 3])
    ensures c == match row.color { Some(c) => c, None => FALLBACK_SWATCH },
{
    match row.color {
        Some(c) => c,
        None => FALLBACK_SWATCH,
    }
}

// ---------------------------------------------------------------------
// Messages in, effects out.

/// A request the window sends the daemon.
pub enum Request {
    GetStatus,
    ListProfiles,
    ApplyProfile { id: String },
    StartRecord { key_id: KeyId, timeout_ms: u64 },
    StopRecord,
    ClearBinding { profile_id: String, key_id: KeyId },
    SetBinding { profile_id: String, key_id: KeyId, action: Action },
    SubmitRecordKey { key: KeyToken, modifiers: Vec<Modifier> },
    SubmitRecordMouse { target: MouseTarget },
    SetLighting { profile_id: String, lighting: Lighting },
    RevertProfile { id: String },
    QuitDaemon,
    CreateProfile { name: String, copy_from: Option<String> },
    DeleteProfile { id: String },
}

/// The mathematical value of a [`Request`].
pub enum RequestView {
    GetStatus,
    ListProfiles,
    ApplyProfile { id: Seq<char> },
    StartRecord { key_id: KeyId, timeout_ms: u64 },
    StopRecord,
    ClearBinding { profile_id: Seq<char>, key_id: KeyId },
    SetBinding { profile_id: Seq<char>, key_id: KeyId, action: ActionModel },
    SubmitRecordKey { key: KeyToken, modifiers: Seq<Modifier> },
    SubmitRecordMouse { target: MouseTarget },
    SetLighting { profile_id: Seq<char>, lighting: Lighting },
    RevertProfile { id: Seq<char> },
    QuitDaemon,
    CreateProfile { name: Seq<char>, copy_from: Option<Seq<char>> },
    DeleteProfile { id: Seq<char> },
}

impl View for Request {
    type V = RequestView;

    open spec fn view(&self) -> RequestView {
        match self {
            Request::GetStatus => RequestView::GetStatus,
            Request::ListProfiles => RequestView::ListProfiles,
            Request::ApplyProfile { id } => RequestView::ApplyProfile { id: id@ },
            Request::StartRecord { key_id, timeout_ms } => RequestView::StartRecord { key_id: *key_id, timeout_ms: *timeout_ms },
            Request::StopRecord => RequestView::StopRecord,
            Request::ClearBinding { profile_id, key_id } => RequestView::ClearBinding { profile_id: profile_id@, key_id: *key_id },
            Request::SetBinding { profile_id, key_id, action } => RequestView::SetBinding { profile_id: profile_id@, key_id: *key_id, action: action@ },
            Request::SubmitRecordKey { key, modifiers } => RequestView::SubmitRecordKey { key: *key, modifiers: modifiers@ },
            Request::SubmitRecordMouse { target } => RequestView::SubmitRecordMouse { target: *target },
            Request::SetLighting { profile_id, lighting } => RequestView::SetLighting { profile_id: profile_id@, lighting: *lighting },
            Request::RevertProfile { id } => RequestView::RevertProfile { id: id@ },
            Request::QuitDaemon => RequestView::QuitDaemon,
            Request::CreateProfile { name, copy_from } => RequestView::CreateProfile { name: name@, copy_from: opt_text(*copy_from) },
            Request::DeleteProfile { id } => RequestView::DeleteProfile { id: id@ },
        }
    }
}

/// The method a request is sent under.
pub open spec fn request_method(r: RequestView) -> Method {
    match r {
        RequestView::GetStatus => Method::GetStatus,
        RequestView::ListProfiles => Method::ListProfiles,
        RequestView::ApplyProfile { .. } => Method::ApplyProfile,
        RequestView::StartRecord { .. } => Method::StartRecord,
        RequestView::StopRecord => Method::StopRecord,
        RequestView::ClearBinding { .. } => Method::ClearBinding,
        RequestView::SetBinding { .. } => Method::SetBinding,
        RequestView::SubmitRecordKey { .. } => Method::SubmitRecord,
        RequestView::SubmitRecordMouse { .. } => Method::SubmitRecord,
        RequestView::SetLighting { .. } => Method::SetLighting,
        RequestView::RevertProfile { .. } => Method::RevertProfile,
        RequestView::QuitDaemon => Method::QuitDaemon,
        RequestView::CreateProfile { .. } => Method::CreateProfile,
        RequestView::DeleteProfile { .. } => Method::DeleteProfile,
    }
}

impl Request {
    pub fn method(&self) -> (m: Method)
        ensures m == request_method(self@),
    {
        match self {
            Request::GetStatus => Method::GetStatus,
            Request::ListProfiles => Method::ListProfiles,
            Request::ApplyProfile { .. } => Method::ApplyProfile,
            Request::StartRecord { .. } => Method::StartRecord,
            Request::StopRecord => Method::StopRecord,
            Request::ClearBinding { .. } => Method::ClearBinding,
            Request::SetBinding { .. } => Method::SetBinding,
            Request::SubmitRecordKey { .. } => Method::SubmitRecord,
            Request::SubmitRecordMouse { .. } => Method::SubmitRecord,
            Request::SetLighting { .. } => Method::SetLighting,
            Request::RevertProfile { .. } => Method::RevertProfile,
            Request::QuitDaemon => Method::QuitDaemon,
            Request::CreateProfile { .. } => Method::CreateProfile,
            Request::DeleteProfile { .. } => Method::DeleteProfile,
        }
    }
}

/// Which widget had the keyboard focus when a key was pressed.
#[derive(Debug, Clone, Copy, PartialEq, Eq, Structural)]
pub enum Focus {
    Combo,
    NewProfileName,
    Elsewhere,
}

/// How the permission repair ended.
#[derive(Debug, Clone, Copy, PartialEq, Eq, Structural)]
pub enum FixPermissionsOutcome {
    Success,
    Cancelled,
    Failed,
}

/// What the window asks of the world around it after a message.
pub enum Effect {
    Send(Request),
    /// Read this profile's file and hand it to `App::load_profile`.
    LoadProfile(String),
    /// Ask which widget has focus and answer with `ComboFocusChanged`.
    QueryFocus,
    /// Ask which widget has focus and answer with `ComboKeyResolved`.
    ResolveKeyFocus { key: WindowKey, modifiers: ModifierState },
    FocusNewProfileName,
    RunFixPermissions,
    Exit,
    HideWindow,
    ShowWindow,
    DragWindow,
    MinimizeWindow,
    ToggleMaximize,
    CloseWindow,
}

/// The mathematical value of an [`Effect`].
pub enum EffectView {
    Send(RequestView),
    LoadProfile(Seq<char>),
    QueryFocus,
    ResolveKeyFocus { key: WindowKey, modifiers: ModifierState },
    FocusNewProfileName,
    RunFixPermissions,
    Exit,
    HideWindow,
    ShowWindow,
    DragWindow,
    MinimizeWindow,
    ToggleMaximize,
    CloseWindow,
}

impl View for Effect {
    type V = EffectView;

    open spec fn view(&self) -> EffectView {
        match self {
            Effect::Send(r) => EffectView::Send(r@),
            Effect::LoadProfile(id) => EffectView::LoadProfile(id@),
            Effect::QueryFocus => EffectView::QueryFocus,
            Effect::ResolveKeyFocus { key, modifiers } => EffectView::ResolveKeyFocus { key: *key, modifiers: *modifiers },
            Effect::FocusNewProfileName => EffectView::FocusNewProfileName,
            Effect::RunFixPermissions => EffectView::RunFixPermissions,
            Effect::Exit => EffectView::Exit,
            Effect::HideWindow => EffectView::HideWindow,
            Effect::ShowWindow => EffectView::ShowWindow,
            Effect::DragWindow => EffectView::DragWindow,
            Effect::MinimizeWindow => EffectView::MinimizeWindow,
            Effect::ToggleMaximize => EffectView::ToggleMaximize,
            Effect::CloseWindow => EffectView::CloseWindow,
        }
    }
}

pub open spec fn effects_view(s: Seq<Effect>) -> Seq<EffectView> {
    s.map_values(|e: Effect| e@)
}

fn emit(out: &mut Vec<Effect>, e: Effect)
    ensures effects_view(final(out)@) == effects_view(old(out)@).push(e@),
{
    out.push(e);
    assert(effects_view(out@) =~= effects_view(old(out)@).push(e@));
}

/// The pad as a reply or an event reports it.
#[derive(Debug, Clone, Copy, PartialEq, Eq, Structural)]
pub struct DeviceReport {
    pub present: bool,
    pub model: Option<DeviceModel>,
}

/// What a status reply says. Fields the reply leaves out read as: no
/// lighting backend, no recording, permissions fine.
pub struct StatusReport {
    pub device: DeviceReport,
    pub openrazer_available: bool,
    pub active_profile_id: Option<String>,
    pub record_active: bool,
    pub uinput_ok: bool,
    pub evdev_ok: bool,
    pub grab_conflict: Option<String>,
}

/// What a successful reply carried. `status` is there when the reply
/// described the pad; `profiles` when it listed profiles, each row with
/// its profile's colour.
pub struct Reply {
    pub status: Option<StatusReport>,
    pub profiles: Option<Vec<ProfileRow>>,
    pub id: Option<String>,
    pub active_id: Option<String>,
    pub key_id: Option<KeyId>,
    pub action: Option<Action>,
}

/// What an event carried.
pub struct EventParams {
    pub device: DeviceReport,
    pub key_id: Option<KeyId>,
    pub action: Option<Action>,
    pub code: Option<ErrorCode>,
    pub message: Option<String>,
    pub id: Option<String>,
}

/// Everything that can happen to the window.
pub enum Message {
    DaemonStarting,
    DaemonFailed(String),
    DaemonConnected,
    DaemonStopping,
    IpcResponse { method: Option<Method>, ok: bool, result: Option<Reply>, error: Option<WireError> },
    IpcEvent { method: EventMethod, params: EventParams },
    SelectProfile(String),
    SelectKey(KeyId),
    Record,
    StopRecord,
    ClearBinding,
    ComboChanged(String),
    RefreshComboFocus,
    ComboFocusChanged(Focus),
    ComboKey { key: WindowKey, modifiers: ModifierState },
    ComboKeyResolved { key: WindowKey, modifiers: ModifierState, focused: Focus },
    HoldRepeat(bool),
    MousePick(MouseTarget),
    AddMacroStep,
    DeleteMacroStep(usize),
    MacroDelay(usize, String),
    LightingEffect(EffectChoice),
    LightingBrightness(u8),
    LightingColor(usize, u8),
    RevertProfile,
    FixPermissions,
    FixPermissionsDone(FixPermissionsOutcome),
    Quit,
    /// The window was asked to close; `wayland` tells the session kind.
    CloseRequested { wayland: bool },
    SelectTab(Tab),
    ToggleMenu,
    HoverKey(Option<KeyId>),
    LightingPreset([u8; 3]),
    DragWindow,
    MinimizeWindow,
    ToggleMaximize,
    CloseWindow,
    StartNewProfile,
    NewProfileNameChanged(String),
    SubmitNewProfile,
    CancelNewProfile,
    DeleteProfile(String),
}

// ---------------------------------------------------------------------
// What each message does, stated over the window's value.

pub open spec fn send_view(r: RequestView) -> Seq<EffectView> {
    seq![EffectView::Send(r)]
}

/// Binding an action to the selected key of the profile being edited,
/// and telling the daemon; nothing when either is missing.
#[verifier::opaque]
pub open spec fn apply_action_spec(a: AppView, act: ActionModel) -> (AppView, Seq<EffectView>) {
    match (profile_id_spec(a), a.selected_key) {
        (Some(p), Some(k)) => (
            AppView { bindings: a.bindings.insert(k, act), ..a },
            send_view(RequestView::SetBinding { profile_id: p, key_id: k, action: act }),
        ),
        _ => (a, Seq::empty()),
    }
}

/// Unbinding the selected key of the profile being edited.
#[verifier::opaque]
pub open spec fn clear_binding_spec(a: AppView) -> (AppView, Seq<EffectView>) {
    match (profile_id_spec(a), a.selected_key) {
        (Some(p), Some(k)) => (
            AppView { bindings: a.bindings.remove(k), ..a },
            send_view(RequestView::ClearBinding { profile_id: p, key_id: k }),
        ),
        _ => (a, Seq::empty()),
    }
}

/// A lighting change: kept, marked on the status bar, and sent for the
/// profile being edited.
#[verifier::opaque]
pub open spec fn lighting_change_spec(a: AppView, l: Lighting) -> (AppView, Seq<EffectView>) {
    let b = AppView { lighting: l, lighting_saved: true, ..a };
    (b, match profile_id_spec(b) {
        Some(p) => send_view(RequestView::SetLighting { profile_id: p, lighting: l }),
        None => Seq::empty(),
    })
}

/// The text an error shows: its message, or the code's own sentence
/// when the message is missing or empty.
pub open spec fn error_display(code: ErrorCode, message: Option<Seq<char>>) -> Seq<char> {
    match message {
        Some(m) => if m.len() > 0 { m } else { error_user_message(code) },
        None => error_user_message(code),
    }
}

/// An error from the daemon: permission, disconnect and lighting errors
/// change what is known of the machine; a grab conflict keeps its text
/// for the banner; request errors keep theirs; a second daemon changes
/// nothing.
#[verifier::opaque]
pub open spec fn apply_error_spec(a: AppView, code: ErrorCode, message: Option<Seq<char>>) -> AppView {
    let display = error_display(code, message);
    match code {
        ErrorCode::Permission => AppView { evdev_ok: false, ..a },
        ErrorCode::Disconnect => AppView { device_present: false, ..a },
        ErrorCode::Lighting => AppView { openrazer: false, ..a },
        ErrorCode::GrabConflict => AppView { grab_conflict: Some(display), ..a },
        ErrorCode::AlreadyRunning => a,
        _ => AppView { last_error: Some(display), ..a },
    }
}

#[verifier::opaque]
pub open spec fn apply_device_spec(a: AppView, d: DeviceReport) -> AppView {
    AppView {
        device_present: d.present,
        ever_present: d.present || a.ever_present,
        model: d.model,
        ..a
    }
}

/// A status reply replaces what is known of the pad, the lighting
/// backend, the recording and the permissions; an active profile is made
/// current and loaded. A healthy state ends the wait after a repair.
#[verifier::opaque]
pub open spec fn apply_status_spec(a: AppView, s: StatusReport) -> (AppView, Seq<EffectView>) {
    let b = apply_device_spec(a, s.device);
    let c = AppView {
        openrazer: s.openrazer_available,
        active_profile_id: match s.active_profile_id { Some(id) => Some(id@), None => b.active_profile_id },
        recording: s.record_active,
        uinput_ok: s.uinput_ok,
        evdev_ok: s.evdev_ok,
        grab_conflict: opt_text(s.grab_conflict),
        ..b
    };
    let d = if c.device_present && c.evdev_ok && c.uinput_ok { AppView { after_fix_permissions: false, ..c } } else { c };
    (d, match s.active_profile_id {
        Some(id) => seq![EffectView::LoadProfile(id@)],
        None => Seq::empty(),
    })
}

pub open spec fn row_ids(rows: Seq<RowView>) -> Seq<Seq<char>> {
    rows.map_values(|r: RowView| r.id)
}

/// The last row with this id.
pub open spec fn last_row_with(rows: Seq<RowView>, id: Seq<char>) -> Option<RowView>
    decreases rows.len(),
{
    if rows.len() == 0 {
        None
    } else if rows.last().id == id {
        Some(rows.last())
    } else {
        last_row_with(rows.drop_last(), id)
    }
}

/// The rows in the given order of ids, each id once, with the last row
/// reported for it.
pub open spec fn arrange_rows(order: Seq<Seq<char>>, rows: Seq<RowView>) -> Seq<RowView>
    decreases order.len(),
{
    if order.len() == 0 {
        Seq::empty()
    } else {
        let prev = arrange_rows(order.drop_last(), rows);
        if order.drop_last().contains(order.last()) {
            prev
        } else {
            match last_row_with(rows, order.last()) {
                Some(r) => prev.push(r),
                None => prev,
            }
        }
    }
}

/// The profile list: shipped profiles in pack order, then the user's in
/// the order reported.
#[verifier::opaque]
pub open spec fn apply_profiles_spec(a: AppView, rows: Seq<RowView>) -> AppView {
    let ids = row_ids(rows);
    AppView {
        profiles: arrange_rows(present_shipped(shipped_ids(), ids) + custom_ids(ids), rows),
        ..a
    }
}

/// Making a profile current: active and selected, then loaded.
#[verifier::opaque]
pub open spec fn make_current_spec(a: AppView, id: Option<String>) -> (AppView, Seq<EffectView>) {
    match id {
        Some(id) => (
            AppView { active_profile_id: Some(id@), selected_profile_id: Some(id@), ..a },
            seq![EffectView::LoadProfile(id@)],
        ),
        None => (a, Seq::empty()),
    }
}

pub open spec fn refresh_view() -> Seq<EffectView> {
    send_view(RequestView::ListProfiles) + send_view(RequestView::GetStatus)
}

pub open spec fn edits_profile(m: Method) -> bool {
    m == Method::ApplyProfile || m == Method::RevertProfile || m == Method::CreateProfile
        || m == Method::SetBinding || m == Method::ClearBinding || m == Method::SetLighting
}

/// A recording that ended: the key gets what was recorded, when the
/// daemon said both.
#[verifier::opaque]
pub open spec fn recorded_spec(a: AppView, key_id: Option<KeyId>, action: Option<ActionModel>) -> AppView {
    let b = AppView { recording: false, ..a };
    match (key_id, action) {
        (Some(k), Some(act)) => AppView { bindings: b.bindings.insert(k, act), ..b },
        _ => b,
    }
}

/// The reply to a request that edits or picks a profile: it becomes
/// current, and the lists are asked for again.
#[verifier::opaque]
pub open spec fn edited_spec(a: AppView, id: Option<String>) -> (AppView, Seq<EffectView>) {
    (make_current_spec(a, id).0, make_current_spec(a, id).1 + refresh_view())
}

/// The reply to a deletion: what is active now becomes current, no key
/// stays selected, and the lists are asked for again.
#[verifier::opaque]
pub open spec fn deleted_spec(a: AppView, active_id: Option<String>) -> (AppView, Seq<EffectView>) {
    (
        AppView { selected_key: None, ..make_current_spec(a, active_id).0 },
        make_current_spec(a, active_id).1 + refresh_view(),
    )
}

/// A status reply, and the profile rows when it carried them.
#[verifier::opaque]
pub open spec fn status_and_rows_spec(a: AppView, status: Option<StatusReport>, profiles: Option<Vec<ProfileRow>>) -> (AppView, Seq<EffectView>) {
    let (b, e) = match status {
        Some(s) => apply_status_spec(a, s),
        None => (a, Seq::empty()),
    };
    (match profiles {
        Some(rows) => apply_profiles_spec(b, rows_view(rows@)),
        None => b,
    }, e)
}

pub open spec fn opt_rows(profiles: Option<Vec<ProfileRow>>) -> Seq<RowView> {
    match profiles {
        Some(rows) => rows_view(rows@),
        None => Seq::empty(),
    }
}

/// A successful reply, by the method it answers.
pub open spec fn handle_result_spec(a: AppView, method: Option<Method>, r: Reply) -> (AppView, Seq<EffectView>) {
    match method {
        None => status_and_rows_spec(a, r.status, r.profiles),
        Some(m) => if m == Method::GetStatus {
            status_and_rows_spec(a, r.status, r.profiles)
        } else if m == Method::ListProfiles {
            (apply_profiles_spec(a, opt_rows(r.profiles)), Seq::empty())
        } else if edits_profile(m) {
            edited_spec(a, r.id)
        } else if m == Method::DeleteProfile {
            deleted_spec(a, r.active_id)
        } else if m == Method::StartRecord {
            (AppView { recording: true, ..a }, Seq::empty())
        } else if m == Method::StopRecord {
            (AppView { recording: false, ..a }, Seq::empty())
        } else if m == Method::SubmitRecord {
            (recorded_spec(a, r.key_id, opt_action(r.action)), Seq::empty())
        } else {
            (a, Seq::empty())
        },
    }
}

/// Another process applied a profile: it becomes active and is loaded,
/// and the list is asked for again.
#[verifier::opaque]
pub open spec fn applied_elsewhere_spec(a: AppView, id: Option<String>) -> (AppView, Seq<EffectView>) {
    match id {
        Some(id) => (
            AppView { active_profile_id: Some(id@), ..a },
            seq![EffectView::LoadProfile(id@)] + send_view(RequestView::ListProfiles),
        ),
        None => (a, send_view(RequestView::ListProfiles)),
    }
}

/// An event from the daemon.
pub open spec fn handle_event_spec(a: AppView, m: EventMethod, p: EventParams) -> (AppView, Seq<EffectView>) {
    match m {
        EventMethod::DeviceChanged => (apply_device_spec(a, p.device), Seq::empty()),
        EventMethod::Recorded => (recorded_spec(a, p.key_id, opt_action(p.action)), Seq::empty()),
        EventMethod::RecordCancelled => (AppView { recording: false, ..a }, Seq::empty()),
        EventMethod::Error => (match p.code {
            Some(code) => apply_error_spec(a, code, opt_text(p.message)),
            None => a,
        }, Seq::empty()),
        EventMethod::ProfileApplied => applied_elsewhere_spec(a, p.id),
        EventMethod::FocusWindow => (AppView { hidden: false, ..a }, seq![EffectView::ShowWindow]),
        EventMethod::DaemonStopping => (a, seq![EffectView::Exit]),
    }
}

// ---------------------------------------------------------------------
// The handlers.

fn row_copy(r: &ProfileRow) -> (c: ProfileRow)
    ensures c@ == r@,
{
    ProfileRow {
        id: r.id.clone(),
        name: r.name.clone(),
        is_active: r.is_active,
        can_revert: r.can_revert,
        can_delete: r.can_delete,
        color: r.color,
    }
}

fn last_row_index(rows: &Vec<ProfileRow>, id: &str) -> (r: Option<usize>)
    ensures
        match last_row_with(rows_view(rows@), id@) {
            Some(rv) => r matches Some(j) && j < rows.len() && rows@[j as int]@ == rv,
            None => r is None,
        },
{
    let ghost rv = rows_view(rows@);
    let mut j: usize = rows.len();
    assert(rv.take(j as int) =~= rv);
    while j > 0
        invariant
            j <= rows.len(),
            rv == rows_view(rows@),
            last_row_with(rv, id@) == last_row_with(rv.take(j as int), id@),
        decreases j,
    {
        j -= 1;
        assert(rv.take(j + 1).drop_last() =~= rv.take(j as int));
        assert(rv.take(j + 1).last() == rows@[j as int]@);
        if str_eq(rows[j].id.as_str(), id) {
            return Some(j);
        }
    }
    None
}

fn appears_before(order: &Vec<String>, k: usize) -> (r: bool)
    requires k < order.len(),
    ensures r == id_texts(order@).take(k as int).contains(order@[k as int]@),
{
    let ghost ids = id_texts(order@);
    let mut t: usize = 0;
    while t < k
        invariant
            t <= k < order.len(),
            ids == id_texts(order@),
            forall|u: int| 0 <= u < t ==> ids[u] != ids[k as int],
        decreases k - t,
    {
        if str_eq(order[t].as_str(), order[k].as_str()) {
            assert(ids.take(k as int)[t as int] == ids[k as int]);
            return true;
        }
        t += 1;
    }
    assert forall|u: int| 0 <= u < ids.take(k as int).len() implies ids.take(k as int)[u] != ids[k as int] by {}
    false
}

impl App {
    /// Puts a loaded profile's bindings and lighting on show.
    pub fn load_profile(&mut self, profile: Option<Profile>)
        ensures
            match profile {
                Some(p) => final(self)@ == AppView { bindings: p.bindings@, lighting: p.lighting, ..old(self)@ },
                None => final(self)@ == old(self)@,
            },
    {
        if let Some(p) = profile {
            self.bindings = p.bindings;
            self.lighting = p.lighting;
        }
    }

    fn apply_action(&mut self, action: Action, out: &mut Vec<Effect>)
        ensures
            final(self)@ == apply_action_spec(old(self)@, action@).0,
            effects_view(final(out)@) == effects_view(old(out)@) + apply_action_spec(old(self)@, action@).1,
    {
        proof { reveal(apply_action_spec); }
        let pid = self.profile_id();
        match (pid, self.selected_key) {
            (Some(p), Some(k)) => {
                let copy = action.duplicate();
                self.bindings.insert(k, copy);
                emit(out, Effect::Send(Request::SetBinding { profile_id: p, key_id: k, action }));
            },
            _ => {
                assert(effects_view(out@) =~= effects_view(old(out)@) + Seq::<EffectView>::empty());
            },
        }
    }

    fn clear_binding(&mut self, out: &mut Vec<Effect>)
        ensures
            final(self)@ == clear_binding_spec(old(self)@).0,
            effects_view(final(out)@) == effects_view(old(out)@) + clear_binding_spec(old(self)@).1,
    {
        proof { reveal(clear_binding_spec); }
        let pid = self.profile_id();
        match (pid, self.selected_key) {
            (Some(p), Some(k)) => {
                self.bindings.remove(k);
                emit(out, Effect::Send(Request::ClearBinding { profile_id: p, key_id: k }));
            },
            _ => {
                assert(effects_view(out@) =~= effects_view(old(out)@) + Seq::<EffectView>::empty());
            },
        }
    }

    fn change_lighting(&mut self, l: Lighting, out: &mut Vec<Effect>)
        ensures
            final(self)@ == lighting_change_spec(old(self)@, l).0,
            effects_view(final(out)@) == effects_view(old(out)@) + lighting_change_spec(old(self)@, l).1,
    {
        proof { reveal(lighting_change_spec); }
        self.lighting = l;
        self.lighting_saved = true;
        match self.profile_id() {
            Some(p) => emit(out, Effect::Send(Request::SetLighting { profile_id: p, lighting: l })),
            None => {
                assert(effects_view(out@) =~= effects_view(old(out)@) + Seq::<EffectView>::empty());
            },
        }
    }

    #[verifier::rlimit(40)]
    fn apply_error(&mut self, code: ErrorCode, message: Option<String>)
        ensures final(self)@ == apply_error_spec(old(self)@, code, opt_text(message)),
    {
        proof { reveal(apply_error_spec); }
        let ghost shown = error_display(code, opt_text(message));
        let display = match message {
            Some(m) => if chars_of(m.as_str()).len() > 0 { m } else { code.user_message().to_owned() },
            None => code.user_message().to_owned(),
        };
        assert(display@ == shown);
        match code {
            ErrorCode::Permission => { self.evdev_ok = false; },
            ErrorCode::Disconnect => { self.device_present = false; },
            ErrorCode::Lighting => { self.openrazer = false; },
            ErrorCode::GrabConflict => { self.grab_conflict = Some(display); },
            ErrorCode::AlreadyRunning => {},
            _ => { self.last_error = Some(display); },
        }
    }

    fn apply_device(&mut self, d: DeviceReport)
        ensures final(self)@ == apply_device_spec(old(self)@, d),
    {
        proof { reveal(apply_device_spec); }
        self.device_present = d.present;
        if d.present {
            self.ever_present = true;
        }
        self.model = d.model;
    }

    #[verifier::rlimit(40)]
    fn apply_status(&mut self, s: StatusReport, out: &mut Vec<Effect>)
        ensures
            final(self)@ == apply_status_spec(old(self)@, s).0,
            effects_view(final(out)@) == effects_view(old(out)@) + apply_status_spec(old(self)@, s).1,
    {
        proof { reveal(apply_status_spec); }
        let ghost s0 = s;
        self.apply_device(s.device);
        self.openrazer = s.openrazer_available;
        match s.active_profile_id {
            Some(id) => {
                let copy = id.clone();
                self.active_profile_id = Some(id);
                emit(out, Effect::LoadProfile(copy));
            },
            None => {
                assert(effects_view(out@) =~= effects_view(old(out)@) + Seq::<EffectView>::empty());
            },
        }
        self.recording = s.record_active;
        self.uinput_ok = s.uinput_ok;
        self.evdev_ok = s.evdev_ok;
        self.grab_conflict = s.grab_conflict;
        if self.device_present && self.evdev_ok && self.uinput_ok {
            self.after_fix_permissions = false;
        }
    }

    fn apply_profiles(&mut self, rows: Vec<ProfileRow>)
        ensures final(self)@ == apply_profiles_spec(old(self)@, rows_view(rows@)),
    {
        proof { reveal(apply_profiles_spec); }
        let ghost rv = rows_view(rows@);
        let mut ids: Vec<String> = Vec::new();
        let mut i: usize = 0;
        while i < rows.len()
            invariant
                i <= rows.len(),
                rv == rows_view(rows@),
                id_texts(ids@) == row_ids(rv).take(i as int),
            decreases rows.len() - i,
        {
            let ghost before = id_texts(ids@);
            ids.push(rows[i].id.clone());
            assert(id_texts(ids@) =~= before.push(rows@[i as int].id@));
            assert(row_ids(rv)[i as int] == rows@[i as int].id@);
            i += 1;
            assert(id_texts(ids@) =~= row_ids(rv).take(i as int));
        }
        assert(row_ids(rv).take(rows.len() as int) =~= row_ids(rv));
        let order = profile_row_order(ids.as_slice());
        let ghost ord = id_texts(order@);
        let mut arranged: Vec<ProfileRow> = Vec::new();
        let mut k: usize = 0;
        while k < order.len()
            invariant
                k <= order.len(),
                rv == rows_view(rows@),
                ord == id_texts(order@),
                rows_view(arranged@) == arrange_rows(ord.take(k as int), rv),
            decreases order.len() - k,
        {
            assert(ord.take(k + 1).drop_last() =~= ord.take(k as int));
            assert(ord.take(k + 1).last() == order@[k as int]@);
            if !appears_before(&order, k) {
                match last_row_index(&rows, order[k].as_str()) {
                    Some(j) => {
                        let ghost before = rows_view(arranged@);
                        arranged.push(row_copy(&rows[j]));
                        assert(rows_view(arranged@) =~= before.push(rows@[j as int]@));
                    },
                    None => {},
                }
            }
            k += 1;
        }
        assert(ord.take(order.len() as int) =~= ord);
        self.profiles = arranged;
    }
}

// ---------------------------------------------------------------------
// Keys and macros.

/// A key pressed in the window: the recording while one is open, else
/// the selected key's binding while the combo field has focus. A key the
/// pad cannot send does nothing.
#[verifier::opaque]
pub open spec fn captured_key_spec(a: AppView, key: WindowKey, m: ModifierState, combo_focused: bool) -> (AppView, Seq<EffectView>) {
    match window_key_token(key) {
        None => (a, Seq::empty()),
        Some(t) => if a.recording {
            (
                AppView { recording: false, combo_text: Seq::empty(), ..a },
                send_view(RequestView::SubmitRecordKey { key: t, modifiers: held_modifiers(m) }),
            )
        } else if combo_focused {
            apply_action_spec(
                AppView { combo_text: Seq::empty(), ..a },
                ActionModel::Key { key: t, modifiers: held_modifiers(m) },
            )
        } else {
            (a, Seq::empty())
        },
    }
}

/// The selected key's macro steps, when it holds a macro.
pub open spec fn macro_steps_of(a: AppView) -> Option<Seq<MacroStepModel>> {
    match selected_action_spec(a) {
        Some(ActionModel::Macro { steps }) => Some(steps),
        _ => None,
    }
}

/// The step a macro gains: a tap of `A`, at once.
pub open spec fn new_step_view() -> MacroStepModel {
    MacroStepModel {
        kind: MacroKindModel::Key { key: KeyToken::A, modifiers: Seq::empty() },
        edge: Edge::Tap,
        delay_ms: 0,
    }
}

#[verifier::opaque]
pub open spec fn add_step_spec(a: AppView) -> (AppView, Seq<EffectView>) {
    let steps = match macro_steps_of(a) {
        Some(s) => s,
        None => Seq::empty(),
    };
    if steps.len() < MACRO_MAX_STEPS {
        apply_action_spec(a, ActionModel::Macro { steps: steps.push(new_step_view()) })
    } else {
        (a, Seq::empty())
    }
}

/// Deleting a step; a macro left without steps unbinds the key.
#[verifier::opaque]
pub open spec fn delete_step_spec(a: AppView, index: usize) -> (AppView, Seq<EffectView>) {
    match macro_steps_of(a) {
        None => (a, Seq::empty()),
        Some(steps) => {
            let rest = if index < steps.len() { steps.remove(index as int) } else { steps };
            if rest.len() == 0 {
                clear_binding_spec(a)
            } else {
                apply_action_spec(a, ActionModel::Macro { steps: rest })
            }
        },
    }
}

/// A typed delay: its number, capped; text that is no number keeps the
/// step's delay.
#[verifier::opaque]
pub open spec fn step_delay_spec(a: AppView, index: usize, text: Seq<char>) -> (AppView, Seq<EffectView>) {
    match macro_steps_of(a) {
        None => (a, Seq::empty()),
        Some(steps) => {
            let edited = if index < steps.len() {
                let st = steps[index as int];
                let parsed = match decimal_u32(text) {
                    Some(v) => v,
                    None => st.delay_ms,
                };
                let d = if parsed < MACRO_MAX_DELAY_MS { parsed } else { MACRO_MAX_DELAY_MS };
                steps.update(index as int, MacroStepModel { delay_ms: d, ..st })
            } else {
                steps
            };
            apply_action_spec(a, ActionModel::Macro { steps: edited })
        },
    }
}

/// Turning hold-to-repeat on wraps a key action; turning it off unwraps.
#[verifier::opaque]
pub open spec fn hold_repeat_toggle_spec(a: AppView, enabled: bool) -> (AppView, Seq<EffectView>) {
    match selected_action_spec(a) {
        None => (a, Seq::empty()),
        Some(act) => {
            let next = if enabled {
                match act {
                    ActionModel::Key { .. } => ActionModel::HoldRepeat { inner: Box::new(act), rate_ms: HOLD_REPEAT_RATE_DEFAULT_MS },
                    _ => act,
                }
            } else {
                match act {
                    ActionModel::HoldRepeat { inner, .. } => *inner,
                    _ => act,
                }
            };
            apply_action_spec(a, next)
        },
    }
}

impl App {
    fn apply_captured_key(&mut self, key: &WindowKey, modifiers: ModifierState, combo_focused: bool, out: &mut Vec<Effect>)
        ensures
            final(self)@ == captured_key_spec(old(self)@, *key, modifiers, combo_focused).0,
            effects_view(final(out)@) == effects_view(old(out)@) + captured_key_spec(old(self)@, *key, modifiers, combo_focused).1,
    {
        proof { reveal(captured_key_spec); }
        let token = map_key_token(key);
        let mods = map_modifiers(modifiers);
        match capture_window_key(self.recording, combo_focused, token, mods) {
            KeyCapture::SubmitRecord { key, modifiers } => {
                emit(out, Effect::Send(Request::SubmitRecordKey { key, modifiers }));
                self.recording = false;
                self.combo_text = String::new();
            },
            KeyCapture::SetBinding { key, modifiers } => {
                self.combo_text = String::new();
                self.apply_action(Action::Key { key, modifiers }, out);
            },
            KeyCapture::Ignore => {
                assert(effects_view(out@) =~= effects_view(old(out)@) + Seq::<EffectView>::empty());
            },
        }
    }

    fn macro_steps(&self) -> (r: Option<Vec<MacroStep>>)
        ensures
            match macro_steps_of(self@) {
                Some(steps) => r matches Some(v) && steps_model(v@) == steps,
                None => r is None,
            },
    {
        match self.selected_action() {
            Some(Action::Macro { steps }) => Some(steps),
            _ => None,
        }
    }

    fn add_macro_step(&mut self, out: &mut Vec<Effect>)
        ensures
            final(self)@ == add_step_spec(old(self)@).0,
            effects_view(final(out)@) == effects_view(old(out)@) + add_step_spec(old(self)@).1,
    {
        proof { reveal(add_step_spec); }
        let mut steps = match self.macro_steps() {
            Some(v) => v,
            None => Vec::new(),
        };
        assert(steps_model(steps@) =~= match macro_steps_of(self@) {
            Some(s) => s,
            None => Seq::<MacroStepModel>::empty(),
        });
        if steps.len() < MACRO_MAX_STEPS {
            let ghost before = steps_model(steps@);
            let step = MacroStep {
                kind: MacroKind::Key { key: KeyToken::A, modifiers: Vec::new() },
                edge: Edge::Tap,
                delay_ms: 0,
            };
            assert(step@ == new_step_view()) by {
                assert(step.kind@ == (MacroKindModel::Key { key: KeyToken::A, modifiers: Seq::empty() }));
            }
            steps.push(step);
            assert(steps_model(steps@) =~= before.push(new_step_view()));
            self.apply_action(Action::Macro { steps }, out);
        } else {
            assert(effects_view(out@) =~= effects_view(old(out)@) + Seq::<EffectView>::empty());
        }
    }

    fn delete_macro_step(&mut self, index: usize, out: &mut Vec<Effect>)
        ensures
            final(self)@ == delete_step_spec(old(self)@, index).0,
            effects_view(final(out)@) == effects_view(old(out)@) + delete_step_spec(old(self)@, index).1,
    {
        proof { reveal(delete_step_spec); }
        match self.macro_steps() {
            Some(mut steps) => {
                let ghost before = steps_model(steps@);
                if index < steps.len() {
                    steps.remove(index);
                    assert(steps_model(steps@) =~= before.remove(index as int));
                }
                if steps.len() == 0 {
                    self.clear_binding(out);
                } else {
                    self.apply_action(Action::Macro { steps }, out);
                }
            },
            None => {
                assert(effects_view(out@) =~= effects_view(old(out)@) + Seq::<EffectView>::empty());
            },
        }
    }

    fn set_step_delay(&mut self, index: usize, text: &str, out: &mut Vec<Effect>)
        ensures
            final(self)@ == step_delay_spec(old(self)@, index, text@).0,
            effects_view(final(out)@) == effects_view(old(out)@) + step_delay_spec(old(self)@, index, text@).1,
    {
        proof { reveal(step_delay_spec); }
        match self.macro_steps() {
            Some(mut steps) => {
                let ghost before = steps_model(steps@);
                if index < steps.len() {
                    let mut st = steps[index].duplicate();
                    let parsed = match parse_u32(text) {
                        Some(v) => v,
                        None => st.delay_ms,
                    };
                    st.delay_ms = if parsed < MACRO_MAX_DELAY_MS { parsed } else { MACRO_MAX_DELAY_MS };
                    let ghost sv = st@;
                    steps.set(index, st);
                    assert(steps_model(steps@) =~= before.update(index as int, sv));
                }
                self.apply_action(Action::Macro { steps }, out);
            },
            None => {
                assert(effects_view(out@) =~= effects_view(old(out)@) + Seq::<EffectView>::empty());
            },
        }
    }

    fn toggle_hold_repeat(&mut self, enabled: bool, out: &mut Vec<Effect>)
        ensures
            final(self)@ == hold_repeat_toggle_spec(old(self)@, enabled).0,
            effects_view(final(out)@) == effects_view(old(out)@) + hold_repeat_toggle_spec(old(self)@, enabled).1,
    {
        proof { reveal(hold_repeat_toggle_spec); }
        match self.selected_action() {
            Some(action) => {
                let next = if enabled {
                    match action {
                        Action::Key { .. } => Action::HoldRepeat { inner: Box::new(action), rate_ms: HOLD_REPEAT_RATE_DEFAULT_MS },
                        other => other,
                    }
                } else {
                    match action {
                        Action::HoldRepeat { inner, .. } => *inner,
                        other => other,
                    }
                };
                self.apply_action(next, out);
            },
            None => {
                assert(effects_view(out@) =~= effects_view(old(out)@) + Seq::<EffectView>::empty());
            },
        }
    }
}

// ---------------------------------------------------------------------
// One step.

/// A lighting colour with one channel replaced; a channel past the
/// third changes nothing.
pub open spec fn set_channel(rgb: [u8; 3], channel: usize, value: u8) -> [u8; 3] {
    if channel == 0 {
        [value, rgb[1], rgb[2]]
    } else if channel == 1 {
        [rgb[0], value, rgb[2]]
    } else if channel == 2 {
        [rgb[0], rgb[1], value]
    } else {
        rgb
    }
}

/// The daemon starting, failing or stopping, and its replies and events.
#[verifier::opaque]
pub open spec fn daemon_step(a: AppView, m: Message) -> (AppView, Seq<EffectView>) {
    match m {
        Message::DaemonStarting => (AppView { phase: Phase::Connecting, ..a }, Seq::empty()),
        Message::DaemonFailed(e) => (AppView { phase: Phase::FailedStart, last_error: Some(e@), ..a }, Seq::empty()),
        Message::DaemonConnected => (
            AppView { phase: Phase::Running, ..a },
            send_view(RequestView::GetStatus) + send_view(RequestView::ListProfiles),
        ),
        Message::DaemonStopping => (a, seq![EffectView::Exit]),
        Message::IpcResponse { method, ok, result, error } => if !ok {
            (match error {
                Some(e) => apply_error_spec(a, e.code, Some(e.message@)),
                None => a,
            }, Seq::empty())
        } else {
            match result {
                Some(r) => handle_result_spec(a, method, r),
                None => (a, Seq::empty()),
            }
        },
        Message::IpcEvent { method, params } => handle_event_spec(a, method, params),
        _ => (a, Seq::empty()),
    }
}

/// Picking a profile or a key, recording, and binding the selected key.
#[verifier::opaque]
pub open spec fn binding_step(a: AppView, m: Message) -> (AppView, Seq<EffectView>) {
    match m {
        Message::SelectProfile(id) => (
            AppView { lighting_saved: false, combo_focused: false, selected_profile_id: Some(id@), ..a },
            send_view(RequestView::ApplyProfile { id: id@ }),
        ),
        Message::SelectKey(k) => (AppView { selected_key: Some(k), combo_focused: false, ..a }, Seq::empty()),
        Message::Record => match a.selected_key {
            Some(k) => (
                AppView { recording: true, ..a },
                send_view(RequestView::StartRecord { key_id: k, timeout_ms: RECORD_TIMEOUT_MS }),
            ),
            None => (a, Seq::empty()),
        },
        Message::StopRecord => (AppView { recording: false, ..a }, send_view(RequestView::StopRecord)),
        Message::ClearBinding => clear_binding_spec(a),
        Message::HoldRepeat(enabled) => hold_repeat_toggle_spec(a, enabled),
        Message::MousePick(target) => if a.recording {
            (AppView { recording: false, ..a }, send_view(RequestView::SubmitRecordMouse { target }))
        } else {
            apply_action_spec(a, ActionModel::Mouse { target })
        },
        _ => (a, Seq::empty()),
    }
}

/// Typing a combo into the combo field.
#[verifier::opaque]
pub open spec fn combo_step(a: AppView, m: Message) -> (AppView, Seq<EffectView>) {
    match m {
        Message::ComboChanged(t) => (AppView { combo_text: t@, ..a }, seq![EffectView::QueryFocus]),
        Message::RefreshComboFocus => (a, seq![EffectView::QueryFocus]),
        Message::ComboFocusChanged(f) => (AppView { combo_focused: f == Focus::Combo, ..a }, Seq::empty()),
        Message::ComboKey { key, modifiers } => if a.recording {
            captured_key_spec(a, key, modifiers, a.combo_focused)
        } else {
            (a, seq![EffectView::ResolveKeyFocus { key, modifiers }])
        },
        Message::ComboKeyResolved { key, modifiers, focused } => if focused == Focus::NewProfileName {
            (if key == WindowKey::Named(NamedKey::Escape) { AppView { new_profile_name: None, ..a } } else { a }, Seq::empty())
        } else {
            captured_key_spec(AppView { combo_focused: focused == Focus::Combo, ..a }, key, modifiers, focused == Focus::Combo)
        },
        _ => (a, Seq::empty()),
    }
}

/// Editing macro steps and the lighting.
#[verifier::opaque]
pub open spec fn edit_step(a: AppView, m: Message) -> (AppView, Seq<EffectView>) {
    match m {
        Message::AddMacroStep => add_step_spec(a),
        Message::DeleteMacroStep(index) => delete_step_spec(a, index),
        Message::MacroDelay(index, text) => step_delay_spec(a, index, text@),
        Message::LightingEffect(choice) => lighting_change_spec(a, Lighting {
            effect: choice.0,
            color: if effect_uses_color(choice.0) && a.lighting.color is None { Some(DEFAULT_LIGHT_COLOR) } else { a.lighting.color },
            ..a.lighting
        }),
        Message::LightingBrightness(v) => lighting_change_spec(a, Lighting {
            brightness: if v < BRIGHTNESS_MAX { v } else { BRIGHTNESS_MAX },
            ..a.lighting
        }),
        Message::LightingColor(channel, v) => lighting_change_spec(a, Lighting {
            color: Some(set_channel(match a.lighting.color { Some(c) => c, None => DEFAULT_LIGHT_COLOR }, channel, v)),
            ..a.lighting
        }),
        Message::RevertProfile => match profile_id_spec(a) {
            Some(id) => (a, send_view(RequestView::RevertProfile { id })),
            None => (a, Seq::empty()),
        },
        Message::LightingPreset(rgb) => lighting_change_spec(a, Lighting { color: Some(rgb), ..a.lighting }),
        _ => (a, Seq::empty()),
    }
}

/// The menu, the window's own controls, and the new-profile name box.
#[verifier::opaque]
pub open spec fn window_step(a: AppView, m: Message) -> (AppView, Seq<EffectView>) {
    match m {
        Message::FixPermissions => (AppView { menu_open: false, ..a }, seq![EffectView::RunFixPermissions]),
        Message::FixPermissionsDone(outcome) => if outcome == FixPermissionsOutcome::Success {
            (AppView { after_fix_permissions: true, ..a }, send_view(RequestView::GetStatus))
        } else {
            (a, Seq::empty())
        },
        Message::Quit => (AppView { menu_open: false, ..a }, send_view(RequestView::QuitDaemon) + seq![EffectView::Exit]),
        Message::CloseRequested { wayland } => (
            AppView { hidden: true, ..a },
            if wayland { seq![EffectView::Exit] } else { seq![EffectView::HideWindow] },
        ),
        Message::SelectTab(t) => (AppView { tab: t, menu_open: false, ..a }, Seq::empty()),
        Message::ToggleMenu => (AppView { menu_open: !a.menu_open, ..a }, Seq::empty()),
        Message::HoverKey(k) => (AppView { hovered_key: k, ..a }, Seq::empty()),
        Message::DragWindow => (a, seq![EffectView::DragWindow]),
        Message::MinimizeWindow => (AppView { menu_open: false, ..a }, seq![EffectView::MinimizeWindow]),
        Message::ToggleMaximize => (AppView { menu_open: false, ..a }, seq![EffectView::ToggleMaximize]),
        Message::CloseWindow => (AppView { menu_open: false, ..a }, seq![EffectView::CloseWindow]),
        Message::StartNewProfile => (
            AppView { menu_open: false, new_profile_name: Some(Seq::empty()), ..a },
            seq![EffectView::FocusNewProfileName],
        ),
        Message::NewProfileNameChanged(t) => (
            if a.new_profile_name is Some { AppView { new_profile_name: Some(t@), ..a } } else { a },
            Seq::empty(),
        ),
        Message::SubmitNewProfile => match a.new_profile_name {
            None => (a, Seq::empty()),
            Some(n) => if trim_seq(n).len() == 0 {
                (a, Seq::empty())
            } else {
                (
                    AppView { new_profile_name: None, ..a },
                    send_view(RequestView::CreateProfile { name: trim_seq(n), copy_from: profile_id_spec(a) }),
                )
            },
        },
        Message::CancelNewProfile => (AppView { new_profile_name: None, ..a }, Seq::empty()),
        Message::DeleteProfile(id) => (a, send_view(RequestView::DeleteProfile { id: id@ })),
        _ => (a, Seq::empty()),
    }
}

/// What one message does to the window, and what it asks of the world,
/// in order.
pub open spec fn step(a: AppView, m: Message) -> (AppView, Seq<EffectView>) {
    if m is DaemonStarting || m is DaemonFailed || m is DaemonConnected || m is DaemonStopping || m is IpcResponse || m is IpcEvent {
        daemon_step(a, m)
    } else if m is SelectProfile || m is SelectKey || m is Record || m is StopRecord || m is ClearBinding || m is HoldRepeat || m is MousePick {
        binding_step(a, m)
    } else if m is ComboChanged || m is RefreshComboFocus || m is ComboFocusChanged || m is ComboKey || m is ComboKeyResolved {
        combo_step(a, m)
    } else if m is AddMacroStep || m is DeleteMacroStep || m is MacroDelay || m is LightingEffect || m is LightingBrightness || m is LightingColor || m is LightingPreset || m is RevertProfile {
        edit_step(a, m)
    } else {
        window_step(a, m)
    }
}

fn with_channel(rgb: [u8; 3], channel: usize, value: u8) -> (r: [u8; 3])
    ensures r == set_channel(rgb, channel, value),
{
    if channel == 0 {
        [value, rgb[1], rgb[2]]
    } else if channel == 1 {
        [rgb[0], value, rgb[2]]
    } else if channel == 2 {
        [rgb[0], rgb[1], value]
    } else {
        rgb
    }
}

fn send(out: &mut Vec<Effect>, r: Request)
    ensures effects_view(final(out)@) == effects_view(old(out)@) + send_view(r@),
{
    emit(out, Effect::Send(r));
}

impl App {
    fn finish_recording(&mut self, key_id: Option<KeyId>, action: Option<Action>)
        ensures final(self)@ == recorded_spec(old(self)@, key_id, opt_action(action)),
    {
        proof { reveal(recorded_spec); }
        self.recording = false;
        match (key_id, action) {
            (Some(k), Some(act)) => {
                self.bindings.insert(k, act);
            },
            _ => {},
        }
    }

    fn edited(&mut self, id: Option<String>, out: &mut Vec<Effect>)
        ensures
            final(self)@ == edited_spec(old(self)@, id).0,
            effects_view(final(out)@) == effects_view(old(out)@) + edited_spec(old(self)@, id).1,
    {
        proof { reveal(edited_spec); }
        let ghost o0 = effects_view(out@);
        self.make_current(id, out);
        send(out, Request::ListProfiles);
        send(out, Request::GetStatus);
        assert(effects_view(out@) =~= o0 + (make_current_spec(old(self)@, id).1 + refresh_view()));
    }

    fn deleted(&mut self, active_id: Option<String>, out: &mut Vec<Effect>)
        ensures
            final(self)@ == deleted_spec(old(self)@, active_id).0,
            effects_view(final(out)@) == effects_view(old(out)@) + deleted_spec(old(self)@, active_id).1,
    {
        proof { reveal(deleted_spec); }
        let ghost o0 = effects_view(out@);
        self.make_current(active_id, out);
        self.selected_key = None;
        send(out, Request::ListProfiles);
        send(out, Request::GetStatus);
        assert(effects_view(out@) =~= o0 + (make_current_spec(old(self)@, active_id).1 + refresh_view()));
    }

    fn status_and_rows(&mut self, status: Option<StatusReport>, profiles: Option<Vec<ProfileRow>>, out: &mut Vec<Effect>)
        ensures
            final(self)@ == status_and_rows_spec(old(self)@, status, profiles).0,
            effects_view(final(out)@) == effects_view(old(out)@) + status_and_rows_spec(old(self)@, status, profiles).1,
    {
        proof { reveal(status_and_rows_spec); }
        match status {
            Some(st) => self.apply_status(st, out),
            None => {
                assert(effects_view(out@) =~= effects_view(old(out)@) + Seq::<EffectView>::empty());
            },
        }
        match profiles {
            Some(rows) => self.apply_profiles(rows),
            None => {},
        }
    }

    fn handle_result(&mut self, method: Option<Method>, r: Reply, out: &mut Vec<Effect>)
        ensures
            final(self)@ == handle_result_spec(old(self)@, method, r).0,
            effects_view(final(out)@) == effects_view(old(out)@) + handle_result_spec(old(self)@, method, r).1,
    {
        let ghost o0 = effects_view(out@);
        let ghost r0 = r;
        let Reply { status, profiles, id, active_id, key_id, action } = r;
        let m = match method {
            None => Method::GetStatus,
            Some(m) => m,
        };
        match m {
            Method::GetStatus => self.status_and_rows(status, profiles, out),
            Method::ListProfiles => {
                let rows = match profiles {
                    Some(rows) => rows,
                    None => Vec::new(),
                };
                assert(rows_view(rows@) =~= opt_rows(r0.profiles));
                self.apply_profiles(rows);
                assert(effects_view(out@) =~= o0 + Seq::<EffectView>::empty());
            },
            Method::ApplyProfile | Method::RevertProfile | Method::CreateProfile | Method::SetBinding
            | Method::ClearBinding | Method::SetLighting => self.edited(id, out),
            Method::DeleteProfile => self.deleted(active_id, out),
            Method::StartRecord => {
                self.recording = true;
                assert(effects_view(out@) =~= o0 + Seq::<EffectView>::empty());
            },
            Method::StopRecord => {
                self.recording = false;
                assert(effects_view(out@) =~= o0 + Seq::<EffectView>::empty());
            },
            Method::SubmitRecord => {
                self.finish_recording(key_id, action);
                assert(effects_view(out@) =~= o0 + Seq::<EffectView>::empty());
            },
            _ => {
                assert(effects_view(out@) =~= o0 + Seq::<EffectView>::empty());
            },
        }
    }

    fn make_current(&mut self, id: Option<String>, out: &mut Vec<Effect>)
        ensures
            final(self)@ == make_current_spec(old(self)@, id).0,
            effects_view(final(out)@) == effects_view(old(out)@) + make_current_spec(old(self)@, id).1,
    {
        proof { reveal(make_current_spec); }
        match id {
            Some(id) => {
                self.active_profile_id = Some(id.clone());
                self.selected_profile_id = Some(id.clone());
                emit(out, Effect::LoadProfile(id));
            },
            None => {
                assert(effects_view(out@) =~= effects_view(old(out)@) + Seq::<EffectView>::empty());
            },
        }
    }

    fn applied_elsewhere(&mut self, id: Option<String>, out: &mut Vec<Effect>)
        ensures
            final(self)@ == applied_elsewhere_spec(old(self)@, id).0,
            effects_view(final(out)@) == effects_view(old(out)@) + applied_elsewhere_spec(old(self)@, id).1,
    {
        proof { reveal(applied_elsewhere_spec); }
        let ghost o0 = effects_view(out@);
        match id {
            Some(id) => {
                self.active_profile_id = Some(id.clone());
                let ghost v = id@;
                emit(out, Effect::LoadProfile(id));
                send(out, Request::ListProfiles);
                assert(effects_view(out@) =~= o0 + (seq![EffectView::LoadProfile(v)] + send_view(RequestView::ListProfiles)));
            },
            None => send(out, Request::ListProfiles),
        }
    }

    fn handle_event(&mut self, method: EventMethod, p: EventParams, out: &mut Vec<Effect>)
        ensures
            final(self)@ == handle_event_spec(old(self)@, method, p).0,
            effects_view(final(out)@) == effects_view(old(out)@) + handle_event_spec(old(self)@, method, p).1,
    {
        let ghost o0 = effects_view(out@);
        let EventParams { device, key_id, action, code, message, id } = p;
        match method {
            EventMethod::DeviceChanged => {
                self.apply_device(device);
                assert(effects_view(out@) =~= o0 + Seq::<EffectView>::empty());
            },
            EventMethod::Recorded => {
                self.finish_recording(key_id, action);
                assert(effects_view(out@) =~= o0 + Seq::<EffectView>::empty());
            },
            EventMethod::RecordCancelled => {
                self.recording = false;
                assert(effects_view(out@) =~= o0 + Seq::<EffectView>::empty());
            },
            EventMethod::Error => {
                match code {
                    Some(c) => self.apply_error(c, message),
                    None => {},
                }
                assert(effects_view(out@) =~= o0 + Seq::<EffectView>::empty());
            },
            EventMethod::ProfileApplied => self.applied_elsewhere(id, out),
            EventMethod::FocusWindow => {
                self.hidden = false;
                emit(out, Effect::ShowWindow);
            },
            EventMethod::DaemonStopping => {
                emit(out, Effect::Exit);
            },
        }
    }
}

impl App {
    /// Moves the window one message on, and says what the world around it
    /// must do, in order.
    pub fn update(&mut self, msg: Message) -> (effects: Vec<Effect>)
        ensures
            final(self)@ == step(old(self)@, msg).0,
            effects_view(effects@) == step(old(self)@, msg).1,
    {
        let mut out: Vec<Effect> = Vec::new();
        match msg {
            Message::DaemonStarting | Message::DaemonFailed(..) | Message::DaemonConnected
            | Message::DaemonStopping | Message::IpcResponse { .. } | Message::IpcEvent { .. } => {
                self.on_daemon(msg, &mut out)
            },
            Message::SelectProfile(..) | Message::SelectKey(..) | Message::Record | Message::StopRecord
            | Message::ClearBinding | Message::HoldRepeat(..) | Message::MousePick(..) => {
                self.on_binding(msg, &mut out)
            },
            Message::ComboChanged(..) | Message::RefreshComboFocus | Message::ComboFocusChanged(..)
            | Message::ComboKey { .. } | Message::ComboKeyResolved { .. } => {
                self.on_combo(msg, &mut out)
            },
            Message::AddMacroStep | Message::DeleteMacroStep(..) | Message::MacroDelay(..)
            | Message::LightingEffect(..) | Message::LightingBrightness(..) | Message::LightingColor(..)
            | Message::LightingPreset(..) | Message::RevertProfile => {
                self.on_edit(msg, &mut out)
            },
            _ => self.on_window(msg, &mut out),
        }
        assert(effects_view(out@) =~= Seq::<EffectView>::empty() + step(old(self)@, msg).1);
        out
    }

    fn on_daemon(&mut self, msg: Message, out: &mut Vec<Effect>)
        requires
            msg is DaemonStarting || msg is DaemonFailed || msg is DaemonConnected || msg is DaemonStopping
                || msg is IpcResponse || msg is IpcEvent,
        ensures
            final(self)@ == daemon_step(old(self)@, msg).0,
            effects_view(final(out)@) == effects_view(old(out)@) + daemon_step(old(self)@, msg).1,
    {
        proof { reveal(daemon_step); }
        let ghost o0 = effects_view(out@);
        match msg {
            Message::DaemonStarting => {
                self.phase = Phase::Connecting;
                assert(effects_view(out@) =~= o0 + Seq::<EffectView>::empty());
            },
            Message::DaemonFailed(e) => {
                self.phase = Phase::FailedStart;
                self.last_error = Some(e);
                assert(effects_view(out@) =~= o0 + Seq::<EffectView>::empty());
            },
            Message::DaemonConnected => {
                self.phase = Phase::Running;
                send(out, Request::GetStatus);
                send(out, Request::ListProfiles);
                assert(effects_view(out@) =~= o0 + (send_view(RequestView::GetStatus) + send_view(RequestView::ListProfiles)));
            },
            Message::DaemonStopping => {
                emit(out, Effect::Exit);
            },
            Message::IpcResponse { method, ok, result, error } => {
                if !ok {
                    match error {
                        Some(err) => self.apply_error(err.code, Some(err.message)),
                        None => {},
                    }
                    assert(effects_view(out@) =~= o0 + Seq::<EffectView>::empty());
                } else {
                    match result {
                        Some(r) => self.handle_result(method, r, out),
                        None => {
                            assert(effects_view(out@) =~= o0 + Seq::<EffectView>::empty());
                        },
                    }
                }
            },
            Message::IpcEvent { method, params } => self.handle_event(method, params, out),
            _ => {},
        }
    }

    fn on_binding(&mut self, msg: Message, out: &mut Vec<Effect>)
        requires
            msg is SelectProfile || msg is SelectKey || msg is Record || msg is StopRecord || msg is ClearBinding
                || msg is HoldRepeat || msg is MousePick,
        ensures
            final(self)@ == binding_step(old(self)@, msg).0,
            effects_view(final(out)@) == effects_view(old(out)@) + binding_step(old(self)@, msg).1,
    {
        proof { reveal(binding_step); }
        let ghost o0 = effects_view(out@);
        match msg {
            Message::SelectProfile(id) => {
                self.lighting_saved = false;
                self.combo_focused = false;
                self.selected_profile_id = Some(id.clone());
                send(out, Request::ApplyProfile { id });
            },
            Message::SelectKey(k) => {
                self.selected_key = Some(k);
                self.combo_focused = false;
                assert(effects_view(out@) =~= o0 + Seq::<EffectView>::empty());
            },
            Message::Record => {
                match self.selected_key {
                    Some(k) => {
                        send(out, Request::StartRecord { key_id: k, timeout_ms: RECORD_TIMEOUT_MS });
                        self.recording = true;
                    },
                    None => {
                        assert(effects_view(out@) =~= o0 + Seq::<EffectView>::empty());
                    },
                }
            },
            Message::StopRecord => {
                send(out, Request::StopRecord);
                self.recording = false;
            },
            Message::ClearBinding => self.clear_binding(out),
            Message::HoldRepeat(enabled) => self.toggle_hold_repeat(enabled, out),
            Message::MousePick(target) => {
                if self.recording {
                    send(out, Request::SubmitRecordMouse { target });
                    self.recording = false;
                } else {
                    self.apply_action(Action::Mouse { target }, out);
                }
            },
            _ => {},
        }
    }

    #[verifier::rlimit(30)]
    fn on_combo(&mut self, msg: Message, out: &mut Vec<Effect>)
        requires
            msg is ComboChanged || msg is RefreshComboFocus || msg is ComboFocusChanged || msg is ComboKey
                || msg is ComboKeyResolved,
        ensures
            final(self)@ == combo_step(old(self)@, msg).0,
            effects_view(final(out)@) == effects_view(old(out)@) + combo_step(old(self)@, msg).1,
    {
        proof { reveal(combo_step); }
        let ghost o0 = effects_view(out@);
        match msg {
            Message::ComboChanged(t) => {
                self.combo_text = t;
                emit(out, Effect::QueryFocus);
            },
            Message::RefreshComboFocus => {
                emit(out, Effect::QueryFocus);
            },
            Message::ComboFocusChanged(f) => {
                self.combo_focused = f == Focus::Combo;
                assert(effects_view(out@) =~= o0 + Seq::<EffectView>::empty());
            },
            Message::ComboKey { key, modifiers } => {
                if self.recording {
                    let focused = self.combo_focused;
                    self.apply_captured_key(&key, modifiers, focused, out);
                } else {
                    emit(out, Effect::ResolveKeyFocus { key, modifiers });
                }
            },
            Message::ComboKeyResolved { key, modifiers, focused } => {
                if focused == Focus::NewProfileName {
                    match &key {
                        WindowKey::Named(NamedKey::Escape) => {
                            self.new_profile_name = None;
                        },
                        _ => {},
                    }
                    assert(effects_view(out@) =~= o0 + Seq::<EffectView>::empty());
                } else {
                    self.combo_focused = focused == Focus::Combo;
                    let f = self.combo_focused;
                    self.apply_captured_key(&key, modifiers, f, out);
                }
            },
            _ => {},
        }
    }

    fn on_edit(&mut self, msg: Message, out: &mut Vec<Effect>)
        requires
            msg is AddMacroStep || msg is DeleteMacroStep || msg is MacroDelay || msg is LightingEffect
                || msg is LightingBrightness || msg is LightingColor || msg is LightingPreset || msg is RevertProfile,
        ensures
            final(self)@ == edit_step(old(self)@, msg).0,
            effects_view(final(out)@) == effects_view(old(out)@) + edit_step(old(self)@, msg).1,
    {
        proof { reveal(edit_step); }
        let ghost o0 = effects_view(out@);
        match msg {
            Message::AddMacroStep => self.add_macro_step(out),
            Message::DeleteMacroStep(index) => self.delete_macro_step(index, out),
            Message::MacroDelay(index, text) => self.set_step_delay(index, text.as_str(), out),
            Message::LightingEffect(choice) => {
                let effect = choice.0;
                let color = if uses_color(effect) && self.lighting.color.is_none() {
                    Some(DEFAULT_LIGHT_COLOR)
                } else {
                    self.lighting.color
                };
                let l = Lighting { effect, brightness: self.lighting.brightness, color };
                self.change_lighting(l, out);
            },
            Message::LightingBrightness(v) => {
                let b = if v < BRIGHTNESS_MAX { v } else { BRIGHTNESS_MAX };
                let l = Lighting { effect: self.lighting.effect, brightness: b, color: self.lighting.color };
                self.change_lighting(l, out);
            },
            Message::LightingColor(channel, v) => {
                let rgb = match self.lighting.color {
                    Some(c) => c,
                    None => DEFAULT_LIGHT_COLOR,
                };
                let l = Lighting {
                    effect: self.lighting.effect,
                    brightness: self.lighting.brightness,
                    color: Some(with_channel(rgb, channel, v)),
                };
                self.change_lighting(l, out);
            },
            Message::LightingPreset(rgb) => {
                let l = Lighting { effect: self.lighting.effect, brightness: self.lighting.brightness, color: Some(rgb) };
                self.change_lighting(l, out);
            },
            Message::RevertProfile => {
                match self.profile_id() {
                    Some(id) => send(out, Request::RevertProfile { id }),
                    None => {
                        assert(effects_view(out@) =~= o0 + Seq::<EffectView>::empty());
                    },
                }
            },
            _ => {},
        }
    }

    fn on_window(&mut self, msg: Message, out: &mut Vec<Effect>)
        requires
            msg is FixPermissions || msg is FixPermissionsDone || msg is Quit || msg is CloseRequested
                || msg is SelectTab || msg is ToggleMenu || msg is HoverKey || msg is DragWindow
                || msg is MinimizeWindow || msg is ToggleMaximize || msg is CloseWindow || msg is StartNewProfile
                || msg is NewProfileNameChanged || msg is SubmitNewProfile || msg is CancelNewProfile
                || msg is DeleteProfile,
        ensures
            final(self)@ == window_step(old(self)@, msg).0,
            effects_view(final(out)@) == effects_view(old(out)@) + window_step(old(self)@, msg).1,
    {
        proof { reveal(window_step); }
        let ghost o0 = effects_view(out@);
        match msg {
            Message::FixPermissions => {
                self.menu_open = false;
                emit(out, Effect::RunFixPermissions);
            },
            Message::FixPermissionsDone(outcome) => {
                if outcome == FixPermissionsOutcome::Success {
                    self.after_fix_permissions = true;
                    send(out, Request::GetStatus);
                } else {
                    assert(effects_view(out@) =~= o0 + Seq::<EffectView>::empty());
                }
            },
            Message::Quit => {
                self.menu_open = false;
                send(out, Request::QuitDaemon);
                emit(out, Effect::Exit);
                assert(effects_view(out@) =~= o0 + (send_view(RequestView::QuitDaemon) + seq![EffectView::Exit]));
            },
            Message::CloseRequested { wayland } => {
                self.hidden = true;
                match close_action(wayland) {
                    CloseAction::HideToTray => emit(out, Effect::HideWindow),
                    CloseAction::ExitUi => emit(out, Effect::Exit),
                }
            },
            Message::SelectTab(t) => {
                self.tab = t;
                self.menu_open = false;
                assert(effects_view(out@) =~= o0 + Seq::<EffectView>::empty());
            },
            Message::ToggleMenu => {
                self.menu_open = !self.menu_open;
                assert(effects_view(out@) =~= o0 + Seq::<EffectView>::empty());
            },
            Message::HoverKey(k) => {
                self.hovered_key = k;
                assert(effects_view(out@) =~= o0 + Seq::<EffectView>::empty());
            },
            Message::DragWindow => emit(out, Effect::DragWindow),
            Message::MinimizeWindow => {
                self.menu_open = false;
                emit(out, Effect::MinimizeWindow);
            },
            Message::ToggleMaximize => {
                self.menu_open = false;
                emit(out, Effect::ToggleMaximize);
            },
            Message::CloseWindow => {
                self.menu_open = false;
                emit(out, Effect::CloseWindow);
            },
            Message::StartNewProfile => {
                self.menu_open = false;
                self.new_profile_name = Some(String::new());
                emit(out, Effect::FocusNewProfileName);
            },
            Message::NewProfileNameChanged(t) => {
                if self.new_profile_name.is_some() {
                    self.new_profile_name = Some(t);
                }
                assert(effects_view(out@) =~= o0 + Seq::<EffectView>::empty());
            },
            Message::SubmitNewProfile => self.submit_new_profile(out),
            Message::CancelNewProfile => {
                self.new_profile_name = None;
                assert(effects_view(out@) =~= o0 + Seq::<EffectView>::empty());
            },
            Message::DeleteProfile(id) => send(out, Request::DeleteProfile { id }),
            _ => {},
        }
    }

    fn submit_new_profile(&mut self, out: &mut Vec<Effect>)
        ensures
            final(self)@ == window_step(old(self)@, Message::SubmitNewProfile).0,
            effects_view(final(out)@) == effects_view(old(out)@) + window_step(old(self)@, Message::SubmitNewProfile).1,
    {
        proof { reveal(window_step); }
        let name = match &self.new_profile_name {
            Some(n) => trim_chars(&chars_of(n.as_str())),
            None => {
                assert(effects_view(out@) =~= effects_view(old(out)@) + Seq::<EffectView>::empty());
                return;
            },
        };
        if name.len() == 0 {
            assert(effects_view(out@) =~= effects_view(old(out)@) + Seq::<EffectView>::empty());
            return;
        }
        let copy_from = self.profile_id();
        send(out, Request::CreateProfile { name: from_chars(&name), copy_from });
        self.new_profile_name = None;
    }
}

// ---------------------------------------------------------------------
// Laws of the window.

/// Keys typed into the new-profile name box never bind anything and
/// never reach the daemon; only Escape does something there: it closes
/// the box.
pub proof fn lemma_name_box_keys_never_bind(a: AppView, key: WindowKey, modifiers: ModifierState)
    ensures
        step(a, Message::ComboKeyResolved { key, modifiers, focused: Focus::NewProfileName }).1 == Seq::<EffectView>::empty(),
        step(a, Message::ComboKeyResolved { key, modifiers, focused: Focus::NewProfileName }).0.bindings == a.bindings,
{
    reveal(combo_step);
}

/// Closing the window never asks the daemon for anything: it hides to the
/// tray, or on Wayland ends the window alone.
pub proof fn lemma_close_never_quits_daemon(a: AppView, wayland: bool)
    ensures
        step(a, Message::CloseRequested { wayland }).0.hidden,
        forall|i: int| 0 <= i < step(a, Message::CloseRequested { wayland }).1.len()
            ==> !(#[trigger] step(a, Message::CloseRequested { wayland }).1[i] is Send),
{
    reveal(window_step);
}

pub open spec fn is_lighting_change(m: Message) -> bool {
    m is LightingEffect || m is LightingBrightness || m is LightingColor || m is LightingPreset
}

/// Every lighting change shows on the status bar, and is one write for
/// the profile being edited, carrying the new lighting.
pub proof fn lemma_lighting_change_is_one_write(a: AppView, m: Message)
    requires is_lighting_change(m),
    ensures
        status_text(step(a, m).0) == STATUS_LIGHTING_SAVED@,
        step(a, m).1 == match profile_id_spec(a) {
            Some(p) => send_view(RequestView::SetLighting { profile_id: p, lighting: step(a, m).0.lighting }),
            None => Seq::<EffectView>::empty(),
        },
{
    reveal(edit_step);
    reveal(lighting_change_spec);
}

/// Picking a profile replaces the lighting note on the status bar.
pub proof fn lemma_picking_a_profile_clears_the_lighting_note(a: AppView, id: String)
    ensures
        !step(a, Message::SelectProfile(id)).0.lighting_saved,
        step(a, Message::SelectProfile(id)).0.selected_profile_id == Some(id@),
{
    reveal(binding_step);
}

/// A blank name creates nothing and leaves the box open.
pub proof fn lemma_blank_name_is_ignored(a: AppView)
    requires a.new_profile_name matches Some(n) && trim_seq(n).len() == 0,
    ensures step(a, Message::SubmitNewProfile) == (a, Seq::<EffectView>::empty()),
{
    reveal(window_step);
}

/// A non-blank name is sent trimmed, copying the profile being edited,
/// and the box closes.
pub proof fn lemma_named_profile_is_created(a: AppView)
    requires a.new_profile_name matches Some(n) && trim_seq(n).len() > 0,
    ensures
        step(a, Message::SubmitNewProfile).0.new_profile_name is None,
        step(a, Message::SubmitNewProfile).1 == send_view(RequestView::CreateProfile {
            name: trim_seq(a.new_profile_name->0),
            copy_from: profile_id_spec(a),
        }),
{
    reveal(window_step);
}

} // verus!
