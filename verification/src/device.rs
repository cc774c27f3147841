//! Finding the keypad: reading the kernel's input-device list and HID
//! names, deciding what a busy or unreadable device means, and what the
//! window is told about it.

use vstd::prelude::*;
use crate::constants::{USB_PID_TARTARUS_PRO, USB_PID_TARTARUS_V2};
use crate::error::{error_user_message, ErrorCode};
use crate::remap::{allow_grab, is_tartarus};
use crate::scan::{
    lines, lines_exec, parse_hex_u16, parse_hex_u16_exec, split_char, split_char_exec, views,
    words, words_exec, find_seq, find_seq_exec, lemma_split_char_len,
};
use crate::text::{
    chars_of, contains_chars, contains_seq, from_chars, lower_chars, lower_seq, starts_with_chars,
    starts_with_seq,
};
use crate::types::DeviceModel;

verus! {

pub const SCAN_INTERVAL_MISSING_MS: u64 = 1000;
pub const SCAN_INTERVAL_ACTIVE_MS: u64 = 250;
pub const DEV_INPUT: &'static str = "/dev/input";
pub const OPENRAZER_DAEMON_NAME: &'static str = "openrazer-daemon";

/// How an input node of the keypad is used.
#[derive(Debug, Clone, Copy, PartialEq, Eq, Structural)]
pub enum NodeRole {
    BootKeyboard,
    ExtraKeys,
    Mouse,
}

/// Which device operation failed.
#[derive(Debug, Clone, Copy, PartialEq, Eq, Structural)]
pub enum DeviceIoKind {
    EvdevGrab,
    EvdevOpen,
    Uinput,
}

/// What to do about a device node another program holds.
#[derive(Debug, Clone, PartialEq, Eq)]
pub enum BusyDecision {
    Share,
    Conflict { holder: Option<String> },
}

/// Whether the keypad is there and readable.
#[derive(Debug, Clone, Copy, PartialEq, Eq, Structural)]
pub enum DetectStatus {
    Missing,
    Permission,
    Present,
}

/// What the window is told about the keypad.
#[derive(Debug, Clone, Copy, PartialEq, Eq, Structural)]
pub struct DeviceUiState {
    pub present: bool,
    pub model: Option<DeviceModel>,
    pub evdev_ok: bool,
    pub grab_conflict: bool,
}

/// A keypad found on the system: its model and ids, its input nodes, and
/// the nodes to grab for remapping.
#[derive(Debug, Clone, PartialEq, Eq)]
pub struct Detected {
    pub model: DeviceModel,
    pub vid: u16,
    pub pid: u16,
    pub nodes: Vec<String>,
    pub grab_nodes: Vec<String>,
}

pub open spec fn texts(v: Seq<String>) -> Seq<Seq<char>> {
    v.map_values(|s: String| s@)
}

pub struct DetectedModel {
    pub model: DeviceModel,
    pub vid: u16,
    pub pid: u16,
    pub nodes: Seq<Seq<char>>,
    pub grab_nodes: Seq<Seq<char>>,
}

impl View for Detected {
    type V = DetectedModel;

    open spec fn view(&self) -> DetectedModel {
        DetectedModel {
            model: self.model,
            vid: self.vid,
            pid: self.pid,
            nodes: texts(self.nodes@),
            grab_nodes: texts(self.grab_nodes@),
        }
    }
}

// ---------------------------------------------------------------------
// Ids and error classification.

pub open spec fn model_for_pid(pid: u16) -> Option<DeviceModel> {
    if pid == USB_PID_TARTARUS_V2 {
        Some(DeviceModel::V2)
    } else if pid == USB_PID_TARTARUS_PRO {
        Some(DeviceModel::Pro)
    } else {
        None
    }
}

pub fn model_from_pid(pid: u16) -> (r: Option<DeviceModel>)
    ensures r == model_for_pid(pid),
{
    if pid == USB_PID_TARTARUS_V2 {
        Some(DeviceModel::V2)
    } else if pid == USB_PID_TARTARUS_PRO {
        Some(DeviceModel::Pro)
    } else {
        None
    }
}

/// The model of a Tartarus; `None` for any other device.
pub open spec fn classify_id(vid: u16, pid: u16) -> Option<DeviceModel> {
    if is_tartarus(vid, pid) { model_for_pid(pid) } else { None }
}

pub fn classify_input_id(vid: u16, pid: u16) -> (r: Option<DeviceModel>)
    ensures r == classify_id(vid, pid),
{
    if !allow_grab(vid, pid) {
        return None;
    }
    model_from_pid(pid)
}

/// The first keypad found, if any.
pub fn pick_first(found: Vec<Detected>) -> (r: Option<Detected>)
    ensures
        found@.len() == 0 ==> r is None,
        found@.len() > 0 ==> r == Some(found@[0]),
{
    let mut found = found;
    if found.len() == 0 {
        None
    } else {
        Some(found.remove(0))
    }
}

/// An operating-system error text that says the device is busy.
pub open spec fn is_busy_text(os: Seq<char>) -> bool {
    contains_seq(os, "EBUSY"@) || contains_seq(os, "Device or resource busy"@)
}

/// A failed keypad operation: opening or grabbing a busy input node is a
/// grab conflict; anything else, and any failure of the virtual devices,
/// is a permission problem.
pub open spec fn io_error(kind: DeviceIoKind, os: Seq<char>) -> ErrorCode {
    match kind {
        DeviceIoKind::Uinput => ErrorCode::Permission,
        _ => if is_busy_text(os) { ErrorCode::GrabConflict } else { ErrorCode::Permission },
    }
}

pub fn classify_device_io(kind: DeviceIoKind, os: &str) -> (r: ErrorCode)
    ensures r == io_error(kind, os@),
{
    match kind {
        DeviceIoKind::Uinput => ErrorCode::Permission,
        _ => {
            let text = chars_of(os);
            if contains_chars(&text, &chars_of("EBUSY")) || contains_chars(&text, &chars_of("Device or resource busy")) {
                ErrorCode::GrabConflict
            } else {
                ErrorCode::Permission
            }
        },
    }
}

/// The error for a failed grab.
pub fn grab_conflict_message(os: &str) -> (r: ErrorCode)
    ensures r == io_error(DeviceIoKind::EvdevGrab, os@),
{
    classify_device_io(DeviceIoKind::EvdevGrab, os)
}

/// The nodes to grab: the extra-key and mouse nodes when the list has
/// them, else every node.
pub fn grab_targets(detected: &Detected) -> (r: &Vec<String>)
    ensures
        *r == if detected.grab_nodes@.len() == 0 { detected.nodes } else { detected.grab_nodes },
{
    if detected.grab_nodes.len() == 0 {
        &detected.nodes
    } else {
        &detected.grab_nodes
    }
}

// ---------------------------------------------------------------------
// Who holds a busy node.

/// Whether two character vectors hold the same text.
fn same_chars(a: &Vec<char>, b: &Vec<char>) -> (r: bool)
    ensures r == (a@ == b@),
{
    if a.len() != b.len() {
        return false;
    }
    let mut i: usize = 0;
    while i < a.len()
        invariant i <= a.len() == b.len(), forall|j: int| 0 <= j < i ==> a@[j] == b@[j],
        decreases a.len() - i,
    {
        if a[i] != b[i] {
            return false;
        }
        i += 1;
    }
    assert(a@ =~= b@);
    true
}

fn to_strings(v: &Vec<Vec<char>>) -> (r: Vec<String>)
    ensures texts(r@) == views(v@),
{
    let mut r: Vec<String> = Vec::new();
    let mut i: usize = 0;
    while i < v.len()
        invariant i <= v.len(), texts(r@) == views(v@).take(i as int),
        decreases v.len() - i,
    {
        let s = from_chars(&v[i]);
        let ghost before = texts(r@);
        r.push(s);
        assert(texts(r@) =~= before.push(v@[i as int]@));
        i += 1;
        assert(views(v@).take(i as int) =~= views(v@).take(i - 1).push(v@[i - 1]@));
    }
    assert(views(v@).take(v.len() as int) =~= views(v@));
    r
}

/// A holder as the window names it: any OpenRazer process reads as the
/// OpenRazer daemon.
pub open spec fn holder_display_name(raw: Seq<char>) -> Seq<char> {
    if starts_with_seq(lower_seq(raw), "openrazer"@) { OPENRAZER_DAEMON_NAME@ } else { raw }
}

pub fn display_holder_name(raw: &str) -> (s: String)
    ensures s@ == holder_display_name(raw@),
{
    let lower = lower_chars(&chars_of(raw));
    if starts_with_chars(&lower, &chars_of("openrazer")) {
        OPENRAZER_DAEMON_NAME.to_owned()
    } else {
        raw.to_owned()
    }
}

/// A lighting program: OpenRazer, OpenRGB or Polychromatic, in any case.
pub open spec fn lighting_holder(name: Seq<char>) -> bool {
    let lower = lower_seq(name);
    starts_with_seq(lower, "openrazer"@) || starts_with_seq(lower, "openrgb"@)
        || starts_with_seq(lower, "polychromatic"@)
}

pub fn is_lighting_holder(name: &str) -> (r: bool)
    ensures r == lighting_holder(name@),
{
    let lower = lower_chars(&chars_of(name));
    starts_with_chars(&lower, &chars_of("openrazer")) || starts_with_chars(&lower, &chars_of("openrgb"))
        || starts_with_chars(&lower, &chars_of("polychromatic"))
}

/// The first holder that is not a lighting program.
pub open spec fn first_other_holder(holders: Seq<Seq<char>>) -> Option<Seq<char>>
    decreases holders.len(),
{
    if holders.len() == 0 {
        None
    } else if !lighting_holder(holders[0]) {
        Some(holders[0])
    } else {
        first_other_holder(holders.drop_first())
    }
}

/// What the model of a [`BusyDecision`] is: to share, or a conflict with
/// the named holder, if one is known.
pub open spec fn busy_decision_spec(holders: Seq<Seq<char>>) -> Option<Option<Seq<char>>> {
    if holders.len() == 0 {
        Some(None)
    } else {
        match first_other_holder(holders) {
            None => None,
            Some(h) => Some(Some(holder_display_name(h))),
        }
    }
}

pub open spec fn decision_model(d: BusyDecision) -> Option<Option<Seq<char>>> {
    match d {
        BusyDecision::Share => None,
        BusyDecision::Conflict { holder } => match holder {
            Some(h) => Some(Some(h@)),
            None => Some(None),
        },
    }
}

/// A node held only by lighting programs is shared; one held by anything
/// else is a conflict naming the first such holder; a busy node with no
/// holder found is a conflict with no name.
pub fn busy_decision(holders: &[String]) -> (r: BusyDecision)
    ensures decision_model(r) == busy_decision_spec(texts(holders@)),
{
    let ghost hs = texts(holders@);
    if holders.len() == 0 {
        return BusyDecision::Conflict { holder: None };
    }
    let mut i: usize = 0;
    assert(hs.skip(0) =~= hs);
    while i < holders.len()
        invariant
            i <= holders.len(),
            hs == texts(holders@),
            first_other_holder(hs) == first_other_holder(hs.skip(i as int)),
        decreases holders.len() - i,
    {
        assert(hs.skip(i as int)[0] == holders@[i as int]@);
        assert(hs.skip(i as int).drop_first() =~= hs.skip(i + 1));
        if !is_lighting_holder(holders[i].as_str()) {
            return BusyDecision::Conflict { holder: Some(display_holder_name(holders[i].as_str())) };
        }
        i += 1;
    }
    assert(hs.skip(i as int).len() == 0);
    BusyDecision::Share
}

/// The status text for a grab conflict: the holder's name when one is
/// known, else the conflict's user sentence.
pub open spec fn conflict_status_text(holder: Option<Seq<char>>) -> Seq<char> {
    match holder {
        Some(name) => if name.len() > 0 { holder_display_name(name) } else { error_user_message(ErrorCode::GrabConflict) },
        None => error_user_message(ErrorCode::GrabConflict),
    }
}

pub open spec fn opt_text(h: Option<&str>) -> Option<Seq<char>> {
    match h {
        Some(s) => Some(s@),
        None => None,
    }
}

pub fn grab_conflict_status_value(holder: Option<&str>) -> (s: String)
    ensures s@ == conflict_status_text(opt_text(holder)),
{
    match holder {
        Some(name) => {
            if !name.is_empty() {
                display_holder_name(name)
            } else {
                ErrorCode::GrabConflict.user_message().to_owned()
            }
        },
        None => ErrorCode::GrabConflict.user_message().to_owned(),
    }
}

/// The command a line of `fuser -v` names, if it names one: past the
/// `path:` prefix, the fourth word after user, process id and access.
/// Blank lines and the header name none.
pub open spec fn fuser_command(line: Seq<char>) -> Option<Seq<char>> {
    let t = crate::text::trim_seq(line);
    if t.len() == 0 || (contains_seq(t, "USER"@) && contains_seq(t, "COMMAND"@)) {
        None
    } else {
        let rest = match find_seq(t, seq![':'], 0) {
            Some(p) => t.skip(p + 1),
            None => t,
        };
        let ws = words(rest);
        if ws.len() >= 4 { Some(ws[3]) } else { None }
    }
}

/// The commands named by the lines, each once, first mention first.
pub open spec fn fuser_commands(ls: Seq<Seq<char>>) -> Seq<Seq<char>>
    decreases ls.len(),
{
    if ls.len() == 0 {
        Seq::empty()
    } else {
        let names = fuser_commands(ls.drop_last());
        match fuser_command(ls.last()) {
            Some(c) => if names.contains(c) { names } else { names.push(c) },
            None => names,
        }
    }
}

fn fuser_command_exec(line: &Vec<char>) -> (r: Option<Vec<char>>)
    ensures
        match fuser_command(line@) {
            Some(c) => r matches Some(x) && x@ == c,
            None => r is None,
        },
{
    let t = crate::text::trim_chars(line);
    if t.len() == 0 || (contains_chars(&t, &chars_of("USER")) && contains_chars(&t, &chars_of("COMMAND"))) {
        return None;
    }
    let colon: Vec<char> = vec![':'];
    assert(colon@ =~= seq![':']);
    let rest = match find_seq_exec(&t, &colon, 0) {
        Some(p) => {
            proof { crate::scan::lemma_find_seq_found(t@, colon@, 0); }
            let mut r: Vec<char> = Vec::new();
            let mut k: usize = p + 1;
            while k < t.len()
                invariant p + 1 <= k <= t.len(), r@ == t@.subrange(p + 1, k as int),
                decreases t.len() - k,
            {
                r.push(t[k]);
                k += 1;
                assert(r@ =~= t@.subrange(p + 1, k as int));
            }
            assert(r@ =~= t@.skip(p + 1));
            r
        },
        None => t,
    };
    let ws = words_exec(&rest);
    if ws.len() >= 4 {
        let mut cmd: Vec<char> = Vec::new();
        let w = &ws[3];
        let mut k: usize = 0;
        while k < w.len()
            invariant k <= w.len(), cmd@ == w@.take(k as int),
            decreases w.len() - k,
        {
            cmd.push(w[k]);
            k += 1;
            assert(cmd@ =~= w@.take(k as int));
        }
        assert(cmd@ =~= w@);
        Some(cmd)
    } else {
        None
    }
}

fn contains_text(names: &Vec<Vec<char>>, c: &Vec<char>) -> (r: bool)
    ensures r == views(names@).contains(c@),
{
    let mut i: usize = 0;
    while i < names.len()
        invariant i <= names.len(), forall|j: int| 0 <= j < i ==> names@[j]@ != c@,
        decreases names.len() - i,
    {
        if same_chars(&names[i], c) {
            assert(views(names@)[i as int] == c@);
            return true;
        }
        i += 1;
    }
    assert(!views(names@).contains(c@)) by {
        if views(names@).contains(c@) {
            let j = choose|j: int| 0 <= j < views(names@).len() && views(names@)[j] == c@;
            assert(names@[j]@ == c@);
        }
    }
    false
}

/// The programs `fuser -v` reports holding a node, each once.
pub fn parse_fuser_verbose(text: &str) -> (r: Vec<String>)
    ensures texts(r@) == fuser_commands(lines(text@)),
{
    let ls = lines_exec(&chars_of(text));
    let ghost lv = views(ls@);
    let mut names: Vec<Vec<char>> = Vec::new();
    let mut i: usize = 0;
    while i < ls.len()
        invariant
            i <= ls.len(),
            lv == views(ls@),
            views(names@) == fuser_commands(lv.take(i as int)),
        decreases ls.len() - i,
    {
        assert(lv.take(i + 1).drop_last() =~= lv.take(i as int));
        assert(lv.take(i + 1).last() == ls@[i as int]@);
        match fuser_command_exec(&ls[i]) {
            Some(c) => {
                if !contains_text(&names, &c) {
                    let ghost before = views(names@);
                    let ghost cv = c@;
                    names.push(c);
                    assert(views(names@) =~= before.push(cv));
                }
            },
            None => {},
        }
        i += 1;
    }
    assert(lv.take(ls.len() as int) =~= lv);
    to_strings(&names)
}

/// One process seen under `/proc`: the name of its directory, whether one
/// of its open files leads to the node, and its command name where that
/// file could be read.
#[derive(Debug, Clone)]
pub struct ProcProcess {
    pub dir_name: String,
    pub holds_node: bool,
    pub comm: Option<String>,
}

/// The holder a process adds: its trimmed command name, if its directory
/// is a process id (all digits), it holds the node, and the name is not
/// blank.
pub open spec fn proc_holder(p: ProcProcess) -> Option<Seq<char>> {
    match p.comm {
        Some(c) => {
            let t = crate::text::trim_seq(c@);
            if crate::text::all_digits(p.dir_name@) && p.holds_node && t.len() > 0 {
                Some(t)
            } else {
                None
            }
        },
        None => None,
    }
}

/// The holders of the processes, each name once, in the order seen.
pub open spec fn proc_holders(ps: Seq<ProcProcess>) -> Seq<Seq<char>>
    decreases ps.len(),
{
    if ps.len() == 0 {
        Seq::empty()
    } else {
        let names = proc_holders(ps.drop_last());
        match proc_holder(ps.last()) {
            Some(c) => if names.contains(c) { names } else { names.push(c) },
            None => names,
        }
    }
}

fn all_digit_chars(v: &Vec<char>) -> (r: bool)
    ensures r == crate::text::all_digits(v@),
{
    let mut i: usize = 0;
    while i < v.len()
        invariant i <= v.len(), forall|j: int| 0 <= j < i ==> crate::text::is_ascii_digit(#[trigger] v@[j]),
        decreases v.len() - i,
    {
        if !('0' <= v[i] && v[i] <= '9') {
            return false;
        }
        i += 1;
    }
    true
}

fn proc_holder_exec(p: &ProcProcess) -> (r: Option<Vec<char>>)
    ensures
        match proc_holder(*p) {
            Some(c) => r matches Some(x) && x@ == c,
            None => r is None,
        },
{
    match &p.comm {
        Some(c) => {
            let t = crate::text::trim_chars(&chars_of(c.as_str()));
            if all_digit_chars(&chars_of(p.dir_name.as_str())) && p.holds_node && t.len() > 0 {
                Some(t)
            } else {
                None
            }
        },
        None => None,
    }
}

/// The programs the processes show holding the node, each once.
pub fn holders_from_proc(processes: &Vec<ProcProcess>) -> (r: Vec<String>)
    ensures texts(r@) == proc_holders(processes@),
{
    let mut names: Vec<Vec<char>> = Vec::new();
    let mut i: usize = 0;
    while i < processes.len()
        invariant
            i <= processes.len(),
            views(names@) == proc_holders(processes@.take(i as int)),
        decreases processes.len() - i,
    {
        assert(processes@.take(i + 1).drop_last() =~= processes@.take(i as int));
        assert(processes@.take(i + 1).last() == processes@[i as int]);
        match proc_holder_exec(&processes[i]) {
            Some(c) => {
                if !contains_text(&names, &c) {
                    let ghost before = views(names@);
                    let ghost cv = c@;
                    names.push(c);
                    assert(views(names@) =~= before.push(cv));
                }
            },
            None => {},
        }
        i += 1;
    }
    assert(processes@.take(processes.len() as int) =~= processes@);
    to_strings(&names)
}

/// The programs holding an event node: those the processes show, or,
/// where they show none, those `fuser -v` reports. `fuser_output` runs
/// `fuser` and is called only in that second case.
pub fn lookup_event_holders<F: FnOnce() -> String>(processes: &Vec<ProcProcess>, fuser_output: F) -> (r: Vec<String>)
    requires
        call_requires(fuser_output, ()),
    ensures
        proc_holders(processes@).len() > 0 ==> texts(r@) == proc_holders(processes@),
        proc_holders(processes@).len() == 0 ==> exists|out: String|
            call_ensures(fuser_output, (), out) && texts(r@) == fuser_commands(lines(#[trigger] out@)),
{
    let from_proc = holders_from_proc(processes);
    if from_proc.len() > 0 {
        from_proc
    } else {
        let out = fuser_output();
        let r = parse_fuser_verbose(out.as_str());
        assert(texts(r@) == fuser_commands(lines(out@)));
        r
    }
}

// ---------------------------------------------------------------------
// HID names.

/// The vendor and product of a HID device name `bus:vendor:product.n`,
/// both hexadecimal in either case.
pub open spec fn hid_bus_id(name: Seq<char>) -> Option<(u16, u16)> {
    let parts = split_char(name, ':');
    if parts.len() < 3 {
        None
    } else {
        match parse_hex_u16(parts[1]) {
            None => None,
            Some(vid) => match parse_hex_u16(split_char(parts[2], '.')[0]) {
                None => None,
                Some(pid) => Some((vid, pid)),
            },
        }
    }
}

pub fn parse_hid_bus_id(name: &str) -> (r: Option<(u16, u16)>)
    ensures r == hid_bus_id(name@),
{
    let parts = split_char_exec(&chars_of(name), ':');
    if parts.len() < 3 {
        return None;
    }
    assert(views(parts@)[1] == parts@[1]@);
    let vid = match parse_hex_u16_exec(&parts[1]) {
        None => return None,
        Some(v) => v,
    };
    let pieces = split_char_exec(&parts[2], '.');
    proof { lemma_split_char_len(parts@[2]@, '.'); }
    assert(views(pieces@)[0] == pieces@[0]@);
    let pid = match parse_hex_u16_exec(&pieces[0]) {
        None => return None,
        Some(p) => p,
    };
    Some((vid, pid))
}

/// Whether an earlier name gives the same ids.
pub open spec fn id_seen_before(names: Seq<Seq<char>>, id: (u16, u16)) -> bool {
    exists|j: int| 0 <= j < names.len() && hid_bus_id(names[j]) == Some(id)
}

/// The keypads among HID device names: each Tartarus once, in first-seen
/// order, with no input nodes known.
pub open spec fn hid_catalog(names: Seq<Seq<char>>) -> Seq<DetectedModel>
    decreases names.len(),
{
    if names.len() == 0 {
        Seq::empty()
    } else {
        let prev = hid_catalog(names.drop_last());
        match hid_bus_id(names.last()) {
            None => prev,
            Some(id) => if id_seen_before(names.drop_last(), id) {
                prev
            } else {
                match classify_id(id.0, id.1) {
                    Some(model) => prev.push(DetectedModel {
                        model,
                        vid: id.0,
                        pid: id.1,
                        nodes: Seq::empty(),
                        grab_nodes: Seq::empty(),
                    }),
                    None => prev,
                }
            },
        }
    }
}

pub open spec fn detected_models(v: Seq<Detected>) -> Seq<DetectedModel> {
    v.map_values(|d: Detected| d@)
}

pub open spec fn str_texts(v: Seq<&str>) -> Seq<Seq<char>> {
    v.map_values(|s: &str| s@)
}

fn contains_id(seen: &Vec<(u16, u16)>, id: (u16, u16)) -> (r: bool)
    ensures r == seen@.contains(id),
{
    let mut i: usize = 0;
    while i < seen.len()
        invariant i <= seen.len(), forall|j: int| 0 <= j < i ==> seen@[j] != id,
        decreases seen.len() - i,
    {
        if seen[i].0 == id.0 && seen[i].1 == id.1 {
            assert(seen@[i as int] == id);
            return true;
        }
        i += 1;
    }
    false
}

pub fn hid_catalog_from_names(names: &[&str]) -> (r: Vec<Detected>)
    ensures detected_models(r@) == hid_catalog(str_texts(names@)),
{
    let ghost all = str_texts(names@);
    let mut seen: Vec<(u16, u16)> = Vec::new();
    let mut out: Vec<Detected> = Vec::new();
    let mut i: usize = 0;
    while i < names.len()
        invariant
            i <= names.len(),
            all == str_texts(names@),
            forall|id: (u16, u16)| seen@.contains(id) <==> id_seen_before(all.take(i as int), id),
            detected_models(out@) == hid_catalog(all.take(i as int)),
        decreases names.len() - i,
    {
        let ghost pre = all.take(i as int);
        let ghost next = all.take(i + 1);
        assert(next.drop_last() =~= pre);
        assert(next.last() == names@[i as int]@);
        let parsed = parse_hid_bus_id(names[i]);
        let ghost seen_before = seen@;
        match parsed {
            None => {},
            Some(id) => {
                if !contains_id(&seen, id) {
                    seen.push(id);
                    match classify_input_id(id.0, id.1) {
                        Some(model) => {
                            let d = Detected { model, vid: id.0, pid: id.1, nodes: Vec::new(), grab_nodes: Vec::new() };
                            let ghost before = detected_models(out@);
                            out.push(d);
                            assert(texts(Seq::<String>::empty()) =~= Seq::<Seq<char>>::empty());
                            assert(detected_models(out@) =~= before.push(d@));
                        },
                        None => {},
                    }
                }
            },
        }
        proof {
            assert forall|id2: (u16, u16)| seen@.contains(id2) <==> id_seen_before(next, id2) by {
                if seen@.contains(id2) {
                    if seen_before.contains(id2) {
                        assert(id_seen_before(pre, id2));
                        let j = choose|j: int| 0 <= j < pre.len() && hid_bus_id(pre[j]) == Some(id2);
                        assert(next[j] == pre[j]);
                    } else {
                        assert(parsed == Some(id2));
                        assert(hid_bus_id(next[i as int]) == Some(id2));
                    }
                }
                if id_seen_before(next, id2) {
                    let j = choose|j: int| 0 <= j < next.len() && hid_bus_id(next[j]) == Some(id2);
                    if j < i {
                        assert(pre[j] == next[j]);
                        assert(id_seen_before(pre, id2));
                        assert(seen_before.contains(id2));
                        assert(seen@.contains(id2)) by {
                            let k = choose|k: int| 0 <= k < seen_before.len() && seen_before[k] == id2;
                            assert(seen@[k] == id2);
                        }
                    } else {
                        assert(parsed == Some(id2));
                        if !seen_before.contains(id2) {
                            assert(seen@.last() == id2);
                        } else {
                            let k = choose|k: int| 0 <= k < seen_before.len() && seen_before[k] == id2;
                            assert(seen@[k] == id2);
                        }
                    }
                }
            }
        }
        i += 1;
    }
    assert(all.take(names.len() as int) =~= all);
    out
}

/// The input-device list's keypads when it has any, else the HID list's.
pub fn merge_catalog(proc: Vec<Detected>, hid: Vec<Detected>) -> (r: Vec<Detected>)
    ensures r == if proc@.len() == 0 { hid } else { proc },
{
    if proc.len() == 0 { hid } else { proc }
}

// ---------------------------------------------------------------------
// Status.

/// No keypad is missing; a keypad with no readable input node, or with
/// none known, is a permission problem; one whose nodes all read is
/// present.
pub fn detect_status<F: Fn(&String) -> bool>(found: Option<&Detected>, readable: F) -> (r: DetectStatus)
    requires forall|p: &String| readable.requires((p,)),
    ensures
        found is None ==> r == DetectStatus::Missing,
        found matches Some(d) ==> r != DetectStatus::Missing,
        found matches Some(d) ==> (d.nodes@.len() == 0 ==> r == DetectStatus::Permission),
        found matches Some(d) ==> (r == DetectStatus::Present ==>
            forall|i: int| 0 <= i < d.nodes@.len() ==> readable.ensures((&d.nodes@[i],), true)),
        found matches Some(d) ==> (d.nodes@.len() > 0 && r == DetectStatus::Permission ==>
            exists|i: int| 0 <= i < d.nodes@.len() && readable.ensures((&d.nodes@[i],), false)),
{
    let dev = match found {
        None => return DetectStatus::Missing,
        Some(d) => d,
    };
    if dev.nodes.len() == 0 {
        return DetectStatus::Permission;
    }
    let mut i: usize = 0;
    while i < dev.nodes.len()
        invariant
            i <= dev.nodes.len(),
            found == Some(dev),
            forall|p: &String| readable.requires((p,)),
            forall|j: int| 0 <= j < i ==> readable.ensures((&dev.nodes@[j],), true),
        decreases dev.nodes.len() - i,
    {
        let ok = readable(&dev.nodes[i]);
        if !ok {
            assert(readable.ensures((&dev.nodes@[i as int],), false));
            return DetectStatus::Permission;
        }
        i += 1;
    }
    DetectStatus::Present
}

/// What the window shows: a missing pad is absent and fine; an unreadable
/// one is present without input access and no conflict; a readable one
/// reports whether another program holds it.
pub open spec fn ui_state(status: DetectStatus, model: Option<DeviceModel>, grab_conflict: bool) -> DeviceUiState {
    match status {
        DetectStatus::Missing => DeviceUiState { present: false, model: None, evdev_ok: true, grab_conflict: false },
        DetectStatus::Permission => DeviceUiState { present: true, model, evdev_ok: false, grab_conflict: false },
        DetectStatus::Present => DeviceUiState { present: true, model, evdev_ok: true, grab_conflict },
    }
}

pub fn device_ui_state(status: DetectStatus, model: Option<DeviceModel>, grab_conflict: bool) -> (r: DeviceUiState)
    ensures r == ui_state(status, model, grab_conflict),
{
    match status {
        DetectStatus::Missing => DeviceUiState { present: false, model: None, evdev_ok: true, grab_conflict: false },
        DetectStatus::Permission => DeviceUiState { present: true, model, evdev_ok: false, grab_conflict: false },
        DetectStatus::Present => DeviceUiState { present: true, model, evdev_ok: true, grab_conflict },
    }
}

/// A device-changed event goes out only when what the window shows changed.
pub fn snapshot_changed(prev: &DeviceUiState, next: &DeviceUiState) -> (r: bool)
    ensures r == (*prev != *next),
{
    let same_model = match (prev.model, next.model) {
        (Some(a), Some(b)) => a == b,
        (None, None) => true,
        _ => false,
    };
    !(prev.present == next.present && same_model && prev.evdev_ok == next.evdev_ok
        && prev.grab_conflict == next.grab_conflict)
}

/// How often to look for the pad: quickly while it is grabbed, slowly
/// while it is missing.
pub fn scan_interval_ms(grabbed: bool) -> (r: u64)
    ensures r == if grabbed { SCAN_INTERVAL_ACTIVE_MS } else { SCAN_INTERVAL_MISSING_MS },
{
    if grabbed { SCAN_INTERVAL_ACTIVE_MS } else { SCAN_INTERVAL_MISSING_MS }
}

// ---------------------------------------------------------------------
// The kernel's input-device list.

/// The first line that starts with `prefix`.
pub open spec fn first_line_with(ls: Seq<Seq<char>>, prefix: Seq<char>) -> Option<Seq<char>>
    decreases ls.len(),
{
    if ls.len() == 0 {
        None
    } else if starts_with_seq(ls[0], prefix) {
        Some(ls[0])
    } else {
        first_line_with(ls.drop_first(), prefix)
    }
}

fn first_line_with_exec(ls: &Vec<Vec<char>>, prefix: &Vec<char>) -> (r: Option<usize>)
    ensures
        match first_line_with(views(ls@), prefix@) {
            Some(l) => r matches Some(i) && i < ls@.len() && ls@[i as int]@ == l,
            None => r is None,
        },
{
    let ghost all = views(ls@);
    let mut i: usize = 0;
    assert(all.skip(0) =~= all);
    while i < ls.len()
        invariant
            i <= ls.len(),
            all == views(ls@),
            first_line_with(all, prefix@) == first_line_with(all.skip(i as int), prefix@),
        decreases ls.len() - i,
    {
        assert(all.skip(i as int)[0] == ls@[i as int]@);
        assert(all.skip(i as int).drop_first() =~= all.skip(i + 1));
        if starts_with_chars(&ls[i], prefix) {
            return Some(i);
        }
        i += 1;
    }
    None
}

/// A word without `prefix`, when it starts with it.
pub open spec fn strip_prefix_or_same(t: Seq<char>, prefix: Seq<char>) -> Seq<char> {
    if starts_with_seq(t, prefix) { t.skip(prefix.len() as int) } else { t }
}

/// The handler names on a block's `H:` line.
pub open spec fn handler_tokens(block: Seq<char>) -> Seq<Seq<char>> {
    match first_line_with(lines(block), "H:"@) {
        None => Seq::empty(),
        Some(l) => words(l).map_values(|t: Seq<char>| strip_prefix_or_same(t, "Handlers="@)),
    }
}

fn skip_chars(v: &Vec<char>, n: usize) -> (r: Vec<char>)
    requires n <= v.len(),
    ensures r@ == v@.skip(n as int),
{
    let mut r: Vec<char> = Vec::new();
    let mut i: usize = n;
    while i < v.len()
        invariant n <= i <= v.len(), r@ == v@.subrange(n as int, i as int),
        decreases v.len() - i,
    {
        r.push(v[i]);
        i += 1;
        assert(r@ =~= v@.subrange(n as int, i as int));
    }
    assert(r@ =~= v@.skip(n as int));
    r
}

fn handler_tokens_exec(block: &Vec<char>) -> (r: Vec<Vec<char>>)
    ensures views(r@) == handler_tokens(block@),
{
    let ls = lines_exec(block);
    let line = match first_line_with_exec(&ls, &chars_of("H:")) {
        None => return Vec::new(),
        Some(i) => i,
    };
    let ws = words_exec(&ls[line]);
    let prefix = chars_of("Handlers=");
    let ghost wv = views(ws@);
    let mut out: Vec<Vec<char>> = Vec::new();
    let mut i: usize = 0;
    while i < ws.len()
        invariant
            i <= ws.len(),
            wv == views(ws@),
            prefix@ == "Handlers="@,
            views(out@) == wv.take(i as int).map_values(|t: Seq<char>| strip_prefix_or_same(t, "Handlers="@)),
        decreases ws.len() - i,
    {
        let t = if starts_with_chars(&ws[i], &prefix) {
            skip_chars(&ws[i], prefix.len())
        } else {
            skip_chars(&ws[i], 0)
        };
        assert(ws@[i as int]@.skip(0) =~= ws@[i as int]@);
        let ghost before = views(out@);
        out.push(t);
        assert(views(out@) =~= before.push(strip_prefix_or_same(wv[i as int], "Handlers="@)));
        assert(wv.take(i + 1).map_values(|t: Seq<char>| strip_prefix_or_same(t, "Handlers="@))
            =~= wv.take(i as int).map_values(|t: Seq<char>| strip_prefix_or_same(t, "Handlers="@))
                .push(strip_prefix_or_same(wv[i as int], "Handlers="@)));
        i += 1;
    }
    assert(wv.take(ws.len() as int) =~= wv);
    out
}

/// Whether some line of a block holds `field`.
pub open spec fn block_has_field(block: Seq<char>, field: Seq<char>) -> bool {
    exists|i: int| 0 <= i < lines(block).len() && contains_seq(#[trigger] lines(block)[i], field)
}

fn block_has_field_exec(ls: &Vec<Vec<char>>, field: &str) -> (r: bool)
    ensures r == exists|i: int| 0 <= i < ls@.len() && contains_seq(#[trigger] views(ls@)[i], field@),
{
    let f = chars_of(field);
    let mut i: usize = 0;
    while i < ls.len()
        invariant
            i <= ls.len(),
            f@ == field@,
            forall|j: int| 0 <= j < i ==> !contains_seq(#[trigger] views(ls@)[j], field@),
        decreases ls.len() - i,
    {
        if contains_chars(&ls[i], &f) {
            assert(contains_seq(views(ls@)[i as int], field@));
            return true;
        }
        i += 1;
    }
    false
}

/// Whether some handler name starts with `prefix`.
pub open spec fn any_token_starts(tokens: Seq<Seq<char>>, prefix: Seq<char>) -> bool {
    exists|i: int| 0 <= i < tokens.len() && starts_with_seq(#[trigger] tokens[i], prefix)
}

/// A node with absolute axes carries the extra keys; one with a mouse
/// handler, or with relative axes and no LEDs, is the mouse; the rest is
/// the boot keyboard.
pub open spec fn node_role(block: Seq<char>) -> NodeRole {
    let has_abs = block_has_field(block, "ABS="@);
    let has_rel = block_has_field(block, "REL="@);
    let has_led = block_has_field(block, "LED="@);
    let has_mouse = any_token_starts(handler_tokens(block), "mouse"@);
    if has_abs {
        NodeRole::ExtraKeys
    } else if has_mouse || (has_rel && !has_led) {
        NodeRole::Mouse
    } else {
        NodeRole::BootKeyboard
    }
}

fn node_role_exec(block: &Vec<char>) -> (r: NodeRole)
    ensures r == node_role(block@),
{
    let ls = lines_exec(block);
    let has_abs = block_has_field_exec(&ls, "ABS=");
    let has_rel = block_has_field_exec(&ls, "REL=");
    let has_led = block_has_field_exec(&ls, "LED=");
    let tokens = handler_tokens_exec(block);
    let mouse = chars_of("mouse");
    let mut has_mouse = false;
    let mut i: usize = 0;
    while i < tokens.len()
        invariant
            i <= tokens.len(),
            mouse@ == "mouse"@,
            has_mouse == exists|j: int| 0 <= j < i && starts_with_seq(#[trigger] views(tokens@)[j], "mouse"@),
        decreases tokens.len() - i,
    {
        if starts_with_chars(&tokens[i], &mouse) {
            has_mouse = true;
        }
        assert(views(tokens@)[i as int] == tokens@[i as int]@);
        i += 1;
    }
    if has_abs {
        NodeRole::ExtraKeys
    } else if has_mouse || (has_rel && !has_led) {
        NodeRole::Mouse
    } else {
        NodeRole::BootKeyboard
    }
}

pub fn node_role_from_proc_block(block: &str) -> (r: NodeRole)
    ensures r == node_role(block@),
{
    node_role_exec(&chars_of(block))
}

/// An event node's handler: `event` followed by a digit.
pub open spec fn event_handler(t: Seq<char>) -> bool {
    starts_with_seq(t, "event"@) && t.len() > 5 && crate::text::is_ascii_digit(t[5])
}

/// The input-node paths of a block's event handlers, in order.
pub open spec fn event_nodes(tokens: Seq<Seq<char>>) -> Seq<Seq<char>>
    decreases tokens.len(),
{
    if tokens.len() == 0 {
        Seq::empty()
    } else {
        let prev = event_nodes(tokens.drop_last());
        if event_handler(tokens.last()) {
            prev.push(crate::paths::join_path(DEV_INPUT@, tokens.last()))
        } else {
            prev
        }
    }
}

/// Each event node of a block with the block's role.
pub open spec fn block_entries(block: Seq<char>) -> Seq<(Seq<char>, NodeRole)> {
    event_nodes(handler_tokens(block)).map_values(|p: Seq<char>| (p, node_role(block)))
}

pub open spec fn entry_views(v: Seq<(Vec<char>, NodeRole)>) -> Seq<(Seq<char>, NodeRole)> {
    v.map_values(|e: (Vec<char>, NodeRole)| (e.0@, e.1))
}

fn block_entries_exec(block: &Vec<char>) -> (r: Vec<(Vec<char>, NodeRole)>)
    ensures entry_views(r@) == block_entries(block@),
{
    let role = node_role_exec(block);
    let tokens = handler_tokens_exec(block);
    let ghost tv = views(tokens@);
    let prefix = chars_of("event");
    let mut out: Vec<(Vec<char>, NodeRole)> = Vec::new();
    let mut i: usize = 0;
    while i < tokens.len()
        invariant
            i <= tokens.len(),
            tv == views(tokens@),
            tv == handler_tokens(block@),
            prefix@ == "event"@,
            role == node_role(block@),
            entry_views(out@) == event_nodes(tv.take(i as int)).map_values(|p: Seq<char>| (p, role)),
        decreases tokens.len() - i,
    {
        let t = &tokens[i];
        assert(tv.take(i + 1).drop_last() =~= tv.take(i as int));
        assert(tv.take(i + 1).last() == t@);
        if starts_with_chars(t, &prefix) && t.len() > 5 && '0' <= t[5] && t[5] <= '9' {
            let path = chars_of(crate::paths::join(DEV_INPUT, from_chars(t).as_str()).as_str());
            let ghost before = entry_views(out@);
            out.push((path, role));
            assert(entry_views(out@) =~= before.push((path@, role)));
            assert(event_nodes(tv.take(i + 1)).map_values(|p: Seq<char>| (p, role))
                =~= event_nodes(tv.take(i as int)).map_values(|p: Seq<char>| (p, role)).push((path@, role)));
        } else {
            assert(!event_handler(t@));
        }
        i += 1;
    }
    assert(tv.take(tokens.len() as int) =~= tv);
    out
}

/// The hexadecimal number after `key` on a line, up to the next space.
pub open spec fn field_hex(line: Seq<char>, key: Seq<char>) -> Option<u16> {
    match find_seq(line, key, 0) {
        None => None,
        Some(p) => {
            let ws = words(line.skip(p + key.len()));
            if ws.len() == 0 { None } else { parse_hex_u16(ws[0]) }
        },
    }
}

fn field_hex_exec(line: &Vec<char>, key: &str) -> (r: Option<u16>)
    ensures r == field_hex(line@, key@),
{
    let k = chars_of(key);
    let p = match find_seq_exec(line, &k, 0) {
        None => return None,
        Some(p) => p,
    };
    proof {
        crate::scan::lemma_find_seq_found(line@, k@, 0);
        assert(find_seq(line@, k@, 0) == Some(p as int));
        assert(crate::text::occurs_at(line@, k@, p as int));
        assert(p + k@.len() <= line@.len());
    }
    assert(p + k.len() <= line.len());
    let end: usize = p + k.len();
    let rest = skip_chars(line, end);
    let ws = words_exec(&rest);
    if ws.len() == 0 {
        return None;
    }
    assert(views(ws@)[0] == ws@[0]@);
    parse_hex_u16_exec(&ws[0])
}

/// The vendor and product on a block's `I:` line.
pub open spec fn proc_ids(block: Seq<char>) -> Option<(u16, u16)> {
    match first_line_with(lines(block), "I:"@) {
        None => None,
        Some(line) => match field_hex(line, "Vendor="@) {
            None => None,
            Some(vid) => match field_hex(line, "Product="@) {
                None => None,
                Some(pid) => Some((vid, pid)),
            },
        },
    }
}

fn proc_ids_exec(block: &Vec<char>) -> (r: Option<(u16, u16)>)
    ensures r == proc_ids(block@),
{
    let ls = lines_exec(block);
    let i = match first_line_with_exec(&ls, &chars_of("I:")) {
        None => return None,
        Some(i) => i,
    };
    let vid = match field_hex_exec(&ls[i], "Vendor=") {
        None => return None,
        Some(v) => v,
    };
    let pid = match field_hex_exec(&ls[i], "Product=") {
        None => return None,
        Some(p) => p,
    };
    Some((vid, pid))
}

/// Keypads seen so far: each vendor and product once, in first-seen
/// order, with the entries of all of its blocks.
pub type Groups = Seq<((u16, u16), Seq<(Seq<char>, NodeRole)>)>;

pub open spec fn group_pos(gs: Groups, key: (u16, u16)) -> Option<int> {
    if exists|i: int| 0 <= i < gs.len() && gs[i].0 == key {
        Some(choose|i: int| 0 <= i < gs.len() && gs[i].0 == key)
    } else {
        None
    }
}

pub open spec fn add_to_groups(gs: Groups, key: (u16, u16), es: Seq<(Seq<char>, NodeRole)>) -> Groups {
    match group_pos(gs, key) {
        Some(i) => gs.update(i, (key, gs[i].1 + es)),
        None => gs.push((key, es)),
    }
}

/// The Tartarus blocks of the list, grouped by vendor and product.
pub open spec fn gather(blocks: Seq<Seq<char>>) -> Groups
    decreases blocks.len(),
{
    if blocks.len() == 0 {
        Seq::empty()
    } else {
        let gs = gather(blocks.drop_last());
        match proc_ids(blocks.last()) {
            None => gs,
            Some(key) => if is_tartarus(key.0, key.1) {
                add_to_groups(gs, key, block_entries(blocks.last()))
            } else {
                gs
            },
        }
    }
}

/// The nodes to grab: the extra-key and mouse nodes.
pub open spec fn grab_paths(es: Seq<(Seq<char>, NodeRole)>) -> Seq<Seq<char>>
    decreases es.len(),
{
    if es.len() == 0 {
        Seq::empty()
    } else {
        let prev = grab_paths(es.drop_last());
        match es.last().1 {
            NodeRole::ExtraKeys | NodeRole::Mouse => prev.push(es.last().0),
            NodeRole::BootKeyboard => prev,
        }
    }
}

/// A keypad from its entries: every node, and the nodes to grab (all of
/// them when none is an extra-key or mouse node).
pub open spec fn detected_from(model: DeviceModel, key: (u16, u16), es: Seq<(Seq<char>, NodeRole)>) -> DetectedModel {
    let nodes = es.map_values(|e: (Seq<char>, NodeRole)| e.0);
    let grab = grab_paths(es);
    DetectedModel {
        model,
        vid: key.0,
        pid: key.1,
        nodes,
        grab_nodes: if grab.len() == 0 { nodes } else { grab },
    }
}

pub open spec fn detections(gs: Groups) -> Seq<DetectedModel>
    decreases gs.len(),
{
    if gs.len() == 0 {
        Seq::empty()
    } else {
        let prev = detections(gs.drop_last());
        match classify_id(gs.last().0.0, gs.last().0.1) {
            Some(model) => prev.push(detected_from(model, gs.last().0, gs.last().1)),
            None => prev,
        }
    }
}

/// The keypads in `/proc/bus/input/devices` text: blocks are separated by
/// a blank line; each Tartarus block adds its event nodes to its keypad.
pub open spec fn proc_devices(text: Seq<char>) -> Seq<DetectedModel> {
    detections(gather(crate::scan::split_str(text, "\n\n"@)))
}

pub open spec fn group_views(v: Seq<((u16, u16), Vec<(Vec<char>, NodeRole)>)>) -> Groups {
    v.map_values(|g: ((u16, u16), Vec<(Vec<char>, NodeRole)>)| (g.0, entry_views(g.1@)))
}

pub open spec fn keys_distinct(gs: Groups) -> bool {
    forall|i: int, j: int| 0 <= i < gs.len() && 0 <= j < gs.len() && i != j ==> gs[i].0 != gs[j].0
}

fn append_entries(dst: &mut Vec<(Vec<char>, NodeRole)>, src: Vec<(Vec<char>, NodeRole)>)
    ensures entry_views(final(dst)@) == entry_views(old(dst)@) + entry_views(src@),
{
    let mut src = src;
    let ghost start = entry_views(dst@);
    let ghost all = entry_views(src@);
    let mut moved: Vec<(Vec<char>, NodeRole)> = Vec::new();
    dst.append(&mut src);
    assert(entry_views(dst@) =~= start + all);
}

fn add_group(groups: &mut Vec<((u16, u16), Vec<(Vec<char>, NodeRole)>)>, key: (u16, u16), es: Vec<(Vec<char>, NodeRole)>)
    requires keys_distinct(group_views(old(groups)@)),
    ensures
        group_views(final(groups)@) == add_to_groups(group_views(old(groups)@), key, entry_views(es@)),
        keys_distinct(group_views(final(groups)@)),
{
    let ghost gv = group_views(groups@);
    let mut i: usize = 0;
    while i < groups.len()
        invariant
            i <= groups.len(),
            gv == group_views(groups@),
            gv == group_views(old(groups)@),
            keys_distinct(gv),
            forall|j: int| 0 <= j < i ==> gv[j].0 != key,
        decreases groups.len() - i,
    {
        if groups[i].0.0 == key.0 && groups[i].0.1 == key.1 {
            assert(gv[i as int].0 == key);
            let ghost pos = group_pos(gv, key);
            assert(pos == Some(i as int));
            let ghost ev = entry_views(es@);
            let (k, mut entries) = groups.remove(i);
            assert(entry_views(entries@) == gv[i as int].1);
            append_entries(&mut entries, es);
            groups.insert(i, (k, entries));
            assert(group_views(groups@) =~= gv.update(i as int, (key, gv[i as int].1 + ev)));
            assert(add_to_groups(gv, key, ev) == gv.update(i as int, (key, gv[i as int].1 + ev)));
            return;
        }
        i += 1;
    }
    assert(group_pos(gv, key) is None);
    let ghost ev = entry_views(es@);
    groups.push((key, es));
    assert(group_views(groups@) =~= gv.push((key, ev)));
}

fn to_strings_from(v: &Vec<(Vec<char>, NodeRole)>, grab_only: bool) -> (r: Vec<String>)
    ensures
        grab_only ==> texts(r@) == grab_paths(entry_views(v@)),
        !grab_only ==> texts(r@) == entry_views(v@).map_values(|e: (Seq<char>, NodeRole)| e.0),
{
    let ghost ev = entry_views(v@);
    let mut r: Vec<String> = Vec::new();
    let mut i: usize = 0;
    while i < v.len()
        invariant
            i <= v.len(),
            ev == entry_views(v@),
            grab_only ==> texts(r@) == grab_paths(ev.take(i as int)),
            !grab_only ==> texts(r@) == ev.take(i as int).map_values(|e: (Seq<char>, NodeRole)| e.0),
        decreases v.len() - i,
    {
        assert(ev.take(i + 1).drop_last() =~= ev.take(i as int));
        assert(ev.take(i + 1).last() == (v@[i as int].0@, v@[i as int].1));
        let keep = !grab_only || (match v[i].1 {
            NodeRole::ExtraKeys | NodeRole::Mouse => true,
            NodeRole::BootKeyboard => false,
        });
        if keep {
            let ghost before = texts(r@);
            r.push(from_chars(&v[i].0));
            assert(texts(r@) =~= before.push(v@[i as int].0@));
        }
        proof {
            if !grab_only {
                assert(ev.take(i + 1).map_values(|e: (Seq<char>, NodeRole)| e.0)
                    =~= ev.take(i as int).map_values(|e: (Seq<char>, NodeRole)| e.0).push(v@[i as int].0@));
            }
        }
        i += 1;
    }
    assert(ev.take(v.len() as int) =~= ev);
    r
}

/// The keypads listed in the kernel's input-device text.
pub fn parse_proc_input_devices(text: &str) -> (r: Vec<Detected>)
    ensures detected_models(r@) == proc_devices(text@),
{
    let sep: Vec<char> = vec!['\n', '\n'];
    assert(sep@ =~= "\n\n"@) by {
        reveal_strlit("\n\n");
    }
    let blocks = crate::scan::split_str_exec(&chars_of(text), &sep);
    let ghost bv = views(blocks@);
    let mut groups: Vec<((u16, u16), Vec<(Vec<char>, NodeRole)>)> = Vec::new();
    let mut i: usize = 0;
    while i < blocks.len()
        invariant
            i <= blocks.len(),
            bv == views(blocks@),
            group_views(groups@) == gather(bv.take(i as int)),
            keys_distinct(group_views(groups@)),
        decreases blocks.len() - i,
    {
        assert(bv.take(i + 1).drop_last() =~= bv.take(i as int));
        assert(bv.take(i + 1).last() == blocks@[i as int]@);
        match proc_ids_exec(&blocks[i]) {
            None => {},
            Some(key) => {
                if allow_grab(key.0, key.1) {
                    let es = block_entries_exec(&blocks[i]);
                    add_group(&mut groups, key, es);
                }
            },
        }
        i += 1;
    }
    assert(bv.take(blocks.len() as int) =~= bv);
    let ghost gv = group_views(groups@);
    let mut out: Vec<Detected> = Vec::new();
    let mut j: usize = 0;
    while j < groups.len()
        invariant
            j <= groups.len(),
            gv == group_views(groups@),
            detected_models(out@) == detections(gv.take(j as int)),
        decreases groups.len() - j,
    {
        assert(gv.take(j + 1).drop_last() =~= gv.take(j as int));
        assert(gv.take(j + 1).last() == (groups@[j as int].0, entry_views(groups@[j as int].1@)));
        let key = groups[j].0;
        match classify_input_id(key.0, key.1) {
            Some(model) => {
                let nodes = to_strings_from(&groups[j].1, false);
                let grab = to_strings_from(&groups[j].1, true);
                let grab_nodes = if grab.len() == 0 { to_strings_from(&groups[j].1, false) } else { grab };
                let d = Detected { model, vid: key.0, pid: key.1, nodes, grab_nodes };
                let ghost before = detected_models(out@);
                out.push(d);
                assert(detected_models(out@) =~= before.push(d@));
            },
            None => {},
        }
        j += 1;
    }
    assert(gv.take(groups.len() as int) =~= gv);
    out
}

// ---------------------------------------------------------------------
// Laws of discovery.

proof fn lemma_detections_tartarus(gs: Groups)
    ensures
        forall|i: int| 0 <= i < detections(gs).len() ==> {
            let d = #[trigger] detections(gs)[i];
            is_tartarus(d.vid, d.pid) && classify_id(d.vid, d.pid) == Some(d.model)
        },
    decreases gs.len(),
{
    if gs.len() > 0 {
        lemma_detections_tartarus(gs.drop_last());
    }
}

/// Only Tartarus keypads come out of the input-device list, each with the
/// model its product id names; any other device, a Naga included, is
/// never reported.
pub proof fn lemma_only_tartarus_detected(text: Seq<char>)
    ensures
        forall|i: int| 0 <= i < proc_devices(text).len() ==> {
            let d = #[trigger] proc_devices(text)[i];
            is_tartarus(d.vid, d.pid) && classify_id(d.vid, d.pid) == Some(d.model)
        },
{
    lemma_detections_tartarus(gather(crate::scan::split_str(text, "\n\n"@)));
}

proof fn lemma_hid_catalog_tartarus(names: Seq<Seq<char>>)
    ensures
        forall|i: int| 0 <= i < hid_catalog(names).len() ==> {
            let d = #[trigger] hid_catalog(names)[i];
            is_tartarus(d.vid, d.pid) && classify_id(d.vid, d.pid) == Some(d.model) && d.nodes.len() == 0
        },
    decreases names.len(),
{
    if names.len() > 0 {
        lemma_hid_catalog_tartarus(names.drop_last());
    }
}

/// Every keypad the HID list gives is a Tartarus, with no input nodes.
pub proof fn lemma_hid_catalog_only_tartarus(names: Seq<Seq<char>>)
    ensures
        forall|i: int| 0 <= i < hid_catalog(names).len() ==> {
            let d = #[trigger] hid_catalog(names)[i];
            is_tartarus(d.vid, d.pid) && d.nodes.len() == 0
        },
{
    lemma_hid_catalog_tartarus(names);
}

/// A keypad known only from the HID list, with no readable input node,
/// reads as a permission problem, never as missing.
pub proof fn lemma_unreadable_is_permission(status: DetectStatus, model: Option<DeviceModel>, conflict: bool)
    requires status == DetectStatus::Permission,
    ensures
        ui_state(status, model, conflict).present,
        !ui_state(status, model, conflict).evdev_ok,
        !ui_state(status, model, conflict).grab_conflict,
{
}

} // verus!
