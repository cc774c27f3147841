//! Capturing one keystroke or click for a key: a single recording session
//! at a time, ended by a capture, a cancel, a timeout or a disconnect.

use vstd::prelude::*;
use crate::constants::{RECORD_TIMEOUT_MAX_MS, RECORD_TIMEOUT_MS};
use crate::error::ErrorCode;
use crate::types::{Action, ActionModel, KeyId, KeyToken, Modifier, MouseTarget};

verus! {

/// Why a recording ended without a capture.
#[derive(Debug, Clone, Copy, PartialEq, Eq, Structural)]
pub enum RecordReason {
    Timeout,
    User,
    Disconnected,
}

/// How a recording ended.
#[derive(Debug, PartialEq, Eq)]
pub enum RecordOutcome {
    Recorded { key_id: KeyId, action: Action },
    Cancelled { reason: RecordReason },
}

/// The mathematical value of a [`RecordOutcome`].
pub enum OutcomeModel {
    Recorded { key_id: KeyId, action: ActionModel },
    Cancelled { reason: RecordReason },
}

impl View for RecordOutcome {
    type V = OutcomeModel;

    open spec fn view(&self) -> OutcomeModel {
        match self {
            RecordOutcome::Recorded { key_id, action } => OutcomeModel::Recorded { key_id: *key_id, action: action@ },
            RecordOutcome::Cancelled { reason } => OutcomeModel::Cancelled { reason: *reason },
        }
    }
}

/// The key being recorded and when the recording gives up.
#[derive(Debug, Clone, Copy, PartialEq, Eq, Structural)]
pub struct RecordSession {
    pub key_id: KeyId,
    pub deadline_ms: u64,
}

/// At most one recording session.
#[derive(Debug)]
pub struct Recorder {
    session: Option<RecordSession>,
}

impl View for Recorder {
    type V = Option<RecordSession>;

    closed spec fn view(&self) -> Option<RecordSession> {
        self.session
    }
}

/// How long a recording waits: the requested time, else the default,
/// never more than the maximum.
pub open spec fn record_timeout(timeout_ms: Option<u64>) -> u64 {
    let t = match timeout_ms {
        Some(t) => t,
        None => RECORD_TIMEOUT_MS,
    };
    if t < RECORD_TIMEOUT_MAX_MS { t } else { RECORD_TIMEOUT_MAX_MS }
}

pub open spec fn outcome_model(o: Option<RecordOutcome>) -> Option<OutcomeModel> {
    match o {
        Some(o) => Some(o@),
        None => None,
    }
}

impl Default for Recorder {
    fn default() -> (r: Recorder)
        ensures r@ is None,
    {
        Recorder { session: None }
    }
}

impl Recorder {
    /// A recorder with no session.
    pub fn new() -> (r: Recorder)
        ensures r@ is None,
    {
        Recorder { session: None }
    }

    /// Starts recording `key_id` at `now_ms`. Refused while a session is
    /// open; otherwise gives the key and the deadline.
    pub fn start(&mut self, key_id: KeyId, timeout_ms: Option<u64>, now_ms: u64) -> (r: Result<(KeyId, u64), ErrorCode>)
        requires
            old(self)@ is None ==> now_ms + record_timeout(timeout_ms) <= u64::MAX,
        ensures
            old(self)@ is Some ==> r == Err::<(KeyId, u64), ErrorCode>(ErrorCode::RecordBusy) && final(self)@ == old(self)@,
            old(self)@ is None ==> {
                let deadline = (now_ms + record_timeout(timeout_ms)) as u64;
                &&& r == Ok::<(KeyId, u64), ErrorCode>((key_id, deadline))
                &&& final(self)@ == Some(RecordSession { key_id, deadline_ms: deadline })
            },
    {
        if self.session.is_some() {
            return Err(ErrorCode::RecordBusy);
        }
        let requested = match timeout_ms {
            Some(t) => t,
            None => RECORD_TIMEOUT_MS,
        };
        let timeout = if requested < RECORD_TIMEOUT_MAX_MS { requested } else { RECORD_TIMEOUT_MAX_MS };
        let deadline_ms = now_ms + timeout;
        self.session = Some(RecordSession { key_id, deadline_ms });
        Ok((key_id, deadline_ms))
    }

    /// Ends the session, if any; says whether there was one.
    pub fn stop(&mut self) -> (r: bool)
        ensures
            r == old(self)@ is Some,
            final(self)@ is None,
    {
        self.session.take().is_some()
    }

    /// At or after the deadline the session ends as timed out; before it,
    /// or with no session, nothing happens.
    pub fn on_timeout(&mut self, now_ms: u64) -> (r: Option<RecordOutcome>)
        ensures
            match old(self)@ {
                Some(s) if now_ms >= s.deadline_ms => {
                    &&& outcome_model(r) == Some(OutcomeModel::Cancelled { reason: RecordReason::Timeout })
                    &&& final(self)@ is None
                },
                _ => r is None && final(self)@ == old(self)@,
            },
    {
        let session = match self.session {
            Some(s) => s,
            None => return None,
        };
        if now_ms < session.deadline_ms {
            return None;
        }
        self.session = None;
        Some(RecordOutcome::Cancelled { reason: RecordReason::Timeout })
    }

    /// Captures a key combo for the session's key and ends the session;
    /// `NotFound` with no session.
    pub fn submit_key(&mut self, key: KeyToken, modifiers: Vec<Modifier>) -> (r: Result<RecordOutcome, ErrorCode>)
        ensures
            final(self)@ is None,
            match old(self)@ {
                Some(s) => r matches Ok(o) && o@ == (OutcomeModel::Recorded {
                    key_id: s.key_id,
                    action: ActionModel::Key { key, modifiers: modifiers@ },
                }),
                None => r matches Err(e) && e == ErrorCode::NotFound,
            },
    {
        let session = match self.session.take() {
            Some(s) => s,
            None => return Err(ErrorCode::NotFound),
        };
        Ok(RecordOutcome::Recorded { key_id: session.key_id, action: Action::Key { key, modifiers } })
    }

    /// Captures a mouse button or wheel step for the session's key and
    /// ends the session; `NotFound` with no session.
    pub fn submit_mouse(&mut self, target: MouseTarget) -> (r: Result<RecordOutcome, ErrorCode>)
        ensures
            final(self)@ is None,
            match old(self)@ {
                Some(s) => r matches Ok(o) && o@ == (OutcomeModel::Recorded {
                    key_id: s.key_id,
                    action: ActionModel::Mouse { target },
                }),
                None => r matches Err(e) && e == ErrorCode::NotFound,
            },
    {
        let session = match self.session.take() {
            Some(s) => s,
            None => return Err(ErrorCode::NotFound),
        };
        Ok(RecordOutcome::Recorded { key_id: session.key_id, action: Action::Mouse { target } })
    }

    /// The keypad went away: an open session ends as disconnected.
    pub fn on_disconnect(&mut self) -> (r: Option<RecordOutcome>)
        ensures
            final(self)@ is None,
            outcome_model(r) == if old(self)@ is Some {
                Some(OutcomeModel::Cancelled { reason: RecordReason::Disconnected })
            } else {
                None
            },
    {
        match self.session.take() {
            Some(_) => Some(RecordOutcome::Cancelled { reason: RecordReason::Disconnected }),
            None => None,
        }
    }

    pub fn is_active(&self) -> (r: bool)
        ensures r == self@ is Some,
    {
        self.session.is_some()
    }

    pub fn session(&self) -> (r: Option<RecordSession>)
        ensures r == self@,
    {
        self.session
    }
}

} // verus!
