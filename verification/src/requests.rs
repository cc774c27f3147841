//! The daemon's request rules: what each request needs before it may
//! touch the profile files, and what it answers.

use vstd::prelude::*;
use crate::constants::{RECORD_TIMEOUT_MAX_MS, RECORD_TIMEOUT_MS};
use crate::daemon::Capture;
use crate::error::ErrorCode;
use crate::labels::{custom_ids, id_texts};
use crate::pack::{is_shipped, shipped_ids, SHIPPED_IDS};
use crate::profile::Profile;
use crate::record::{record_timeout, OutcomeModel, RecordOutcome, Recorder, RecordSession};
use crate::text::{chars_of, from_chars, trim_chars, trim_seq};
use crate::types::{Action, ActionModel, GameId, KeyId, Modifier, MouseTarget};

verus! {

/// The profile a new one copies when the request names none: the active
/// profile, else the shipped default.
pub const CREATE_FALLBACK_SOURCE: &'static str = "default";

pub open spec fn opt_text(s: Option<String>) -> Option<Seq<char>> {
    match s {
        Some(s) => Some(s@),
        None => None,
    }
}

pub open spec fn create_source_text(copy_from: Option<Seq<char>>, active: Option<Seq<char>>) -> Seq<char> {
    match copy_from {
        Some(s) => s,
        None => match active {
            Some(a) => a,
            None => CREATE_FALLBACK_SOURCE@,
        },
    }
}

/// Which profile a new one is copied from.
pub fn create_source(copy_from: Option<String>, active: Option<String>) -> (s: String)
    ensures s@ == create_source_text(opt_text(copy_from), opt_text(active)),
{
    match copy_from {
        Some(s) => s,
        None => match active {
            Some(a) => a,
            None => CREATE_FALLBACK_SOURCE.to_owned(),
        },
    }
}

/// A copy made into a custom profile: its new id, its name without the
/// spaces around it, and the custom game; everything else is the source's.
pub fn copy_as_custom(source: Profile, id: String, name: &str) -> (p: Profile)
    ensures
        p.id@ == id@,
        p.name@ == trim_seq(name@),
        p.game == GameId::Custom,
        p.device_models@ == source.device_models@,
        p.bindings@ == source.bindings@,
        p.lighting == source.lighting,
        p.setup_note == source.setup_note,
        p.unknown_key_ids == source.unknown_key_ids,
{
    let mut p = source;
    p.id = id;
    p.name = from_chars(&trim_chars(&chars_of(name)));
    p.game = GameId::Custom;
    p
}

/// Deleting: shipped profiles are refused, a custom id with no file is not
/// found.
pub fn delete_check(id: &str, user_file_exists: bool) -> (r: Result<(), ErrorCode>)
    ensures
        shipped_ids().contains(id@) ==> r == Err::<(), ErrorCode>(ErrorCode::InvalidProfile),
        !shipped_ids().contains(id@) && !user_file_exists ==> r == Err::<(), ErrorCode>(ErrorCode::NotFound),
        !shipped_ids().contains(id@) && user_file_exists ==> r is Ok,
{
    if is_shipped(id) {
        return Err(ErrorCode::InvalidProfile);
    }
    if !user_file_exists {
        return Err(ErrorCode::NotFound);
    }
    Ok(())
}

/// After deleting `id`, the profile to make active: the shipped default
/// when the deleted profile was the active one, none otherwise.
pub fn fallback_after_delete(id: &str, active: Option<&str>) -> (r: Option<&'static str>)
    ensures
        r is Some <==> (active matches Some(a) && a@ == id@),
        r matches Some(s) ==> s@ == CREATE_FALLBACK_SOURCE@,
{
    let was_active = match active {
        Some(a) => crate::text::str_eq(a, id),
        None => false,
    };
    if was_active { Some(CREATE_FALLBACK_SOURCE) } else { None }
}

/// An edit to a profile reaches the engine and the lights only when that
/// profile is the active one.
pub fn edit_is_live(profile_id: &str, active: Option<&str>) -> (r: bool)
    ensures r == (active matches Some(a) && a@ == profile_id@),
{
    match active {
        Some(a) => crate::text::str_eq(a, profile_id),
        None => false,
    }
}

/// Where an editable copy of a profile comes from: a shipped id is copied
/// on first use, a custom id must have its file.
#[derive(Debug, Clone, Copy, PartialEq, Eq, Structural)]
pub enum CopySource {
    FromShipped,
    UserFile,
}

pub fn user_copy_source(is_shipped_id: bool, user_file_exists: bool) -> (r: Result<CopySource, ErrorCode>)
    ensures
        is_shipped_id ==> r == Ok::<CopySource, ErrorCode>(CopySource::FromShipped),
        !is_shipped_id && user_file_exists ==> r == Ok::<CopySource, ErrorCode>(CopySource::UserFile),
        !is_shipped_id && !user_file_exists ==> r == Err::<CopySource, ErrorCode>(ErrorCode::NotFound),
{
    if is_shipped_id {
        Ok(CopySource::FromShipped)
    } else if user_file_exists {
        Ok(CopySource::UserFile)
    } else {
        Err(ErrorCode::NotFound)
    }
}

/// A lighting failure does not fail the request that caused it: the
/// backend's availability is looked at again instead. Other failures stand.
pub fn soft_lighting_result(r: Result<(), ErrorCode>) -> (out: (Result<(), ErrorCode>, bool))
    ensures
        r is Ok ==> out == (Ok::<(), ErrorCode>(()), false),
        r == Err::<(), ErrorCode>(ErrorCode::Lighting) ==> out == (Ok::<(), ErrorCode>(()), true),
        r matches Err(e) ==> (e != ErrorCode::Lighting ==> out == (Err::<(), ErrorCode>(e), false)),
{
    match r {
        Ok(()) => (Ok(()), false),
        Err(ErrorCode::Lighting) => (Ok(()), true),
        Err(e) => (Err(e), false),
    }
}

/// The flags a profile row carries: active when it is the active id; a
/// shipped profile can be reverted, a custom one deleted.
pub struct RowFlags {
    pub is_active: bool,
    pub can_revert: bool,
    pub can_delete: bool,
}

pub fn profile_row_flags(id: &str, active: Option<&str>) -> (f: RowFlags)
    ensures
        f.is_active == (active matches Some(a) && a@ == id@),
        f.can_revert == shipped_ids().contains(id@),
        f.can_delete == !shipped_ids().contains(id@),
{
    let shipped = is_shipped(id);
    let is_active = match active {
        Some(a) => crate::text::str_eq(a, id),
        None => false,
    };
    RowFlags { is_active, can_revert: shipped, can_delete: !shipped }
}

/// Starting a recording: the key and the timeout the reply reports, or
/// `RecordBusy` while one is open.
pub fn start_record(recorder: &mut Recorder, key_id: KeyId, timeout_ms: Option<u64>, now_ms: u64) -> (r: Result<(KeyId, u64), ErrorCode>)
    requires
        old(recorder)@ is None ==> now_ms + record_timeout(timeout_ms) <= u64::MAX,
    ensures
        old(recorder)@ is Some ==> r == Err::<(KeyId, u64), ErrorCode>(ErrorCode::RecordBusy) && final(recorder)@ == old(recorder)@,
        old(recorder)@ is None ==> {
            &&& r == Ok::<(KeyId, u64), ErrorCode>((key_id, record_timeout(timeout_ms)))
            &&& final(recorder)@ == Some(RecordSession {
                key_id,
                deadline_ms: (now_ms + record_timeout(timeout_ms)) as u64,
            })
        },
{
    let requested = match timeout_ms {
        Some(t) => t,
        None => RECORD_TIMEOUT_MS,
    };
    let timeout = if requested < RECORD_TIMEOUT_MAX_MS { requested } else { RECORD_TIMEOUT_MAX_MS };
    match recorder.start(key_id, timeout_ms, now_ms) {
        Ok(_) => Ok((key_id, timeout)),
        Err(e) => Err(e),
    }
}

/// Submitting a capture: only while a recording is open and a profile is
/// active; the result is the key and the action to bind on the active
/// profile. A key keeps the modifiers held with it; a mouse capture has
/// none.
pub fn submit_capture(recorder: &mut Recorder, active_id: Option<&str>, capture: Capture, modifiers: Vec<Modifier>) -> (r: Result<(KeyId, Action), ErrorCode>)
    ensures
        old(recorder)@ is None ==> r == Err::<(KeyId, Action), ErrorCode>(ErrorCode::NotFound) && final(recorder)@ is None,
        old(recorder)@ is Some && active_id is None ==> r == Err::<(KeyId, Action), ErrorCode>(ErrorCode::NotFound)
            && final(recorder)@ == old(recorder)@,
        old(recorder)@ is Some && active_id is Some ==> final(recorder)@ is None,
        old(recorder)@ is Some && active_id is Some ==> (r matches Ok((k, a)) && k == old(recorder)@->0.key_id
            && a@ == match capture {
                Capture::Key(t) => ActionModel::Key { key: t, modifiers: modifiers@ },
                Capture::Mouse(m) => ActionModel::Mouse { target: m },
            }),
{
    if !recorder.is_active() {
        return Err(ErrorCode::NotFound);
    }
    if active_id.is_none() {
        return Err(ErrorCode::NotFound);
    }
    let outcome = match capture {
        Capture::Key(t) => recorder.submit_key(t, modifiers),
        Capture::Mouse(m) => recorder.submit_mouse(m),
    };
    match outcome {
        Ok(RecordOutcome::Recorded { key_id, action }) => Ok((key_id, action)),
        Ok(RecordOutcome::Cancelled { .. }) => Err(ErrorCode::NotFound),
        Err(e) => Err(e),
    }
}

/// The profile list the daemon answers with: every shipped profile in
/// pack order, then the user's own ids that are not shipped, in the order
/// given.
pub fn listed_profile_ids(user_ids: &[String]) -> (r: Vec<String>)
    ensures id_texts(r@) == shipped_ids() + custom_ids(id_texts(user_ids@)),
{
    let mut out: Vec<String> = Vec::new();
    let mut i: usize = 0;
    while i < 16
        invariant
            i <= 16,
            id_texts(out@) == shipped_ids().take(i as int),
        decreases 16 - i,
    {
        let ghost before = id_texts(out@);
        out.push(SHIPPED_IDS[i].to_owned());
        assert(id_texts(out@) =~= before.push(SHIPPED_IDS@[i as int]@));
        i += 1;
        assert(id_texts(out@) =~= shipped_ids().take(i as int));
    }
    assert(shipped_ids().take(16) =~= shipped_ids());
    let ghost all = id_texts(user_ids@);
    let mut j: usize = 0;
    assert(custom_ids(all.take(0)) =~= Seq::<Seq<char>>::empty());
    assert(id_texts(out@) =~= shipped_ids() + custom_ids(all.take(0)));
    while j < user_ids.len()
        invariant
            j <= user_ids.len(),
            all == id_texts(user_ids@),
            id_texts(out@) == shipped_ids() + custom_ids(all.take(j as int)),
        decreases user_ids.len() - j,
    {
        assert(all.take(j + 1).drop_last() =~= all.take(j as int));
        assert(all.take(j + 1).last() == user_ids@[j as int]@);
        if !is_shipped(user_ids[j].as_str()) {
            let ghost before = id_texts(out@);
            out.push(user_ids[j].clone());
            assert(id_texts(out@) =~= before.push(user_ids@[j as int]@));
            assert(id_texts(out@) =~= shipped_ids() + custom_ids(all.take(j + 1)));
        }
        j += 1;
    }
    assert(all.take(user_ids.len() as int) =~= all);
    out
}

/// The ids a new profile's id must avoid: every shipped id, then the
/// user's own.
pub fn taken_profile_ids(user_ids: &[String]) -> (r: Vec<String>)
    ensures id_texts(r@) == shipped_ids() + id_texts(user_ids@),
{
    let mut out: Vec<String> = Vec::new();
    let mut i: usize = 0;
    while i < 16
        invariant
            i <= 16,
            id_texts(out@) == shipped_ids().take(i as int),
        decreases 16 - i,
    {
        let ghost before = id_texts(out@);
        out.push(SHIPPED_IDS[i].to_owned());
        assert(id_texts(out@) =~= before.push(SHIPPED_IDS@[i as int]@));
        i += 1;
        assert(id_texts(out@) =~= shipped_ids().take(i as int));
    }
    assert(shipped_ids().take(16) =~= shipped_ids());
    let ghost head = id_texts(out@);
    let mut j: usize = 0;
    while j < user_ids.len()
        invariant
            j <= user_ids.len(),
            head == shipped_ids(),
            id_texts(out@) == head + id_texts(user_ids@).take(j as int),
        decreases user_ids.len() - j,
    {
        let ghost before = id_texts(out@);
        out.push(user_ids[j].clone());
        assert(id_texts(out@) =~= before.push(user_ids@[j as int]@));
        j += 1;
        assert(id_texts(out@) =~= head + id_texts(user_ids@).take(j as int));
    }
    assert(id_texts(user_ids@).take(user_ids.len() as int) =~= id_texts(user_ids@));
    out
}

} // verus!
