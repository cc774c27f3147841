//! The messages between the window and the daemon: their kinds, method
//! names and error replies.

use vstd::prelude::*;
use crate::error::{error_user_message, ErrorCode};
use crate::text::str_eq;

verus! {

/// Which of the three message kinds a frame holds.
#[derive(Debug, Clone, Copy, PartialEq, Eq, Structural)]
pub enum EnvelopeType {
    Req,
    Res,
    Event,
}

pub open spec fn envelope_name(t: EnvelopeType) -> Seq<char> {
    match t {
        EnvelopeType::Req => "req"@,
        EnvelopeType::Res => "res"@,
        EnvelopeType::Event => "event"@,
    }
}

impl EnvelopeType {
    /// The `type` field's text: lowercase.
    pub fn wire_name(self) -> (s: &'static str)
        ensures s@ == envelope_name(self),
    {
        match self {
            EnvelopeType::Req => "req",
            EnvelopeType::Res => "res",
            EnvelopeType::Event => "event",
        }
    }

    /// The kind a `type` field names, if any.
    pub fn from_wire_name(s: &str) -> (r: Option<EnvelopeType>)
        ensures
            r matches Some(t) ==> envelope_name(t) == s@,
            r is None ==> forall|t: EnvelopeType| envelope_name(t) != s@,
    {
        if str_eq(s, "req") {
            Some(EnvelopeType::Req)
        } else if str_eq(s, "res") {
            Some(EnvelopeType::Res)
        } else if str_eq(s, "event") {
            Some(EnvelopeType::Event)
        } else {
            proof {
                assert forall|t: EnvelopeType| envelope_name(t) != s@ by {
                    match t {
                        EnvelopeType::Req => {},
                        EnvelopeType::Res => {},
                        EnvelopeType::Event => {},
                    }
                }
            }
            None
        }
    }
}

/// What a request asks the daemon to do.
#[derive(Debug, Clone, Copy, PartialEq, Eq, Structural)]
pub enum Method {
    GetStatus,
    ListProfiles,
    ApplyProfile,
    SetBinding,
    ClearBinding,
    StartRecord,
    StopRecord,
    SubmitRecord,
    SetLighting,
    RevertProfile,
    CreateProfile,
    DeleteProfile,
    ShowWindow,
    QuitDaemon,
}

/// What an event tells the window.
#[derive(Debug, Clone, Copy, PartialEq, Eq, Structural)]
pub enum EventMethod {
    DeviceChanged,
    Recorded,
    RecordCancelled,
    Error,
    ProfileApplied,
    FocusWindow,
    DaemonStopping,
}

/// A method's name on the wire: its own name, in PascalCase.
pub open spec fn method_name(m: Method) -> Seq<char> {
    match m {
        Method::GetStatus => "GetStatus"@,
        Method::ListProfiles => "ListProfiles"@,
        Method::ApplyProfile => "ApplyProfile"@,
        Method::SetBinding => "SetBinding"@,
        Method::ClearBinding => "ClearBinding"@,
        Method::StartRecord => "StartRecord"@,
        Method::StopRecord => "StopRecord"@,
        Method::SubmitRecord => "SubmitRecord"@,
        Method::SetLighting => "SetLighting"@,
        Method::RevertProfile => "RevertProfile"@,
        Method::CreateProfile => "CreateProfile"@,
        Method::DeleteProfile => "DeleteProfile"@,
        Method::ShowWindow => "ShowWindow"@,
        Method::QuitDaemon => "QuitDaemon"@,
    }
}

pub open spec fn event_name(m: EventMethod) -> Seq<char> {
    match m {
        EventMethod::DeviceChanged => "DeviceChanged"@,
        EventMethod::Recorded => "Recorded"@,
        EventMethod::RecordCancelled => "RecordCancelled"@,
        EventMethod::Error => "Error"@,
        EventMethod::ProfileApplied => "ProfileApplied"@,
        EventMethod::FocusWindow => "FocusWindow"@,
        EventMethod::DaemonStopping => "DaemonStopping"@,
    }
}

impl Method {
    pub fn wire_name(self) -> (s: &'static str)
        ensures s@ == method_name(self),
    {
        match self {
            Method::GetStatus => "GetStatus",
            Method::ListProfiles => "ListProfiles",
            Method::ApplyProfile => "ApplyProfile",
            Method::SetBinding => "SetBinding",
            Method::ClearBinding => "ClearBinding",
            Method::StartRecord => "StartRecord",
            Method::StopRecord => "StopRecord",
            Method::SubmitRecord => "SubmitRecord",
            Method::SetLighting => "SetLighting",
            Method::RevertProfile => "RevertProfile",
            Method::CreateProfile => "CreateProfile",
            Method::DeleteProfile => "DeleteProfile",
            Method::ShowWindow => "ShowWindow",
            Method::QuitDaemon => "QuitDaemon",
        }
    }

    /// The method a name stands for; `None` for a name no method has.
    pub fn from_wire_name(s: &str) -> (r: Option<Method>)
        ensures
            r matches Some(m) ==> method_name(m) == s@,
            r is None ==> forall|m: Method| method_name(m) != s@,
    {
        if str_eq(s, "GetStatus") {
            return Some(Method::GetStatus);
        }
        if str_eq(s, "ListProfiles") {
            return Some(Method::ListProfiles);
        }
        if str_eq(s, "ApplyProfile") {
            return Some(Method::ApplyProfile);
        }
        if str_eq(s, "SetBinding") {
            return Some(Method::SetBinding);
        }
        if str_eq(s, "ClearBinding") {
            return Some(Method::ClearBinding);
        }
        if str_eq(s, "StartRecord") {
            return Some(Method::StartRecord);
        }
        if str_eq(s, "StopRecord") {
            return Some(Method::StopRecord);
        }
        if str_eq(s, "SubmitRecord") {
            return Some(Method::SubmitRecord);
        }
        if str_eq(s, "SetLighting") {
            return Some(Method::SetLighting);
        }
        if str_eq(s, "RevertProfile") {
            return Some(Method::RevertProfile);
        }
        if str_eq(s, "CreateProfile") {
            return Some(Method::CreateProfile);
        }
        if str_eq(s, "DeleteProfile") {
            return Some(Method::DeleteProfile);
        }
        if str_eq(s, "ShowWindow") {
            return Some(Method::ShowWindow);
        }
        if str_eq(s, "QuitDaemon") {
            return Some(Method::QuitDaemon);
        }
        proof {
            assert forall|m: Method| method_name(m) != s@ by {
                match m {
                    Method::GetStatus => {},
                    Method::ListProfiles => {},
                    Method::ApplyProfile => {},
                    Method::SetBinding => {},
                    Method::ClearBinding => {},
                    Method::StartRecord => {},
                    Method::StopRecord => {},
                    Method::SubmitRecord => {},
                    Method::SetLighting => {},
                    Method::RevertProfile => {},
                    Method::CreateProfile => {},
                    Method::DeleteProfile => {},
                    Method::ShowWindow => {},
                    Method::QuitDaemon => {},
                }
            }
        }
        None
    }
}

impl EventMethod {
    pub fn wire_name(self) -> (s: &'static str)
        ensures s@ == event_name(self),
    {
        match self {
            EventMethod::DeviceChanged => "DeviceChanged",
            EventMethod::Recorded => "Recorded",
            EventMethod::RecordCancelled => "RecordCancelled",
            EventMethod::Error => "Error",
            EventMethod::ProfileApplied => "ProfileApplied",
            EventMethod::FocusWindow => "FocusWindow",
            EventMethod::DaemonStopping => "DaemonStopping",
        }
    }

    pub fn from_wire_name(s: &str) -> (r: Option<EventMethod>)
        ensures
            r matches Some(m) ==> event_name(m) == s@,
            r is None ==> forall|m: EventMethod| event_name(m) != s@,
    {
        if str_eq(s, "DeviceChanged") {
            return Some(EventMethod::DeviceChanged);
        }
        if str_eq(s, "Recorded") {
            return Some(EventMethod::Recorded);
        }
        if str_eq(s, "RecordCancelled") {
            return Some(EventMethod::RecordCancelled);
        }
        if str_eq(s, "Error") {
            return Some(EventMethod::Error);
        }
        if str_eq(s, "ProfileApplied") {
            return Some(EventMethod::ProfileApplied);
        }
        if str_eq(s, "FocusWindow") {
            return Some(EventMethod::FocusWindow);
        }
        if str_eq(s, "DaemonStopping") {
            return Some(EventMethod::DaemonStopping);
        }
        proof {
            assert forall|m: EventMethod| event_name(m) != s@ by {
                match m {
                    EventMethod::DeviceChanged => {},
                    EventMethod::Recorded => {},
                    EventMethod::RecordCancelled => {},
                    EventMethod::Error => {},
                    EventMethod::ProfileApplied => {},
                    EventMethod::FocusWindow => {},
                    EventMethod::DaemonStopping => {},
                }
            }
        }
        None
    }
}

/// An error as a reply carries it: the code and the sentence shown.
#[derive(Debug, Clone, PartialEq, Eq)]
pub struct WireError {
    pub code: ErrorCode,
    pub message: String,
}

pub const UNKNOWN_METHOD_MESSAGE: &'static str = "Unknown method";
pub const NOT_RECORDING_MESSAGE: &'static str = "Not recording.";

impl WireError {
    /// The reply for an error code: the code with its user sentence.
    pub fn from_code(code: ErrorCode) -> (e: WireError)
        ensures
            e.code == code,
            e.message@ == error_user_message(code),
    {
        WireError { code, message: code.user_message().to_owned() }
    }
}

/// The sentence a failed request answers with: submitting a capture with
/// no recording open reads `Not recording.`; every other failure reads its
/// code's user sentence.
pub open spec fn request_error_text(code: ErrorCode, method: Option<Method>) -> Seq<char> {
    if code == ErrorCode::NotFound && method == Some(Method::SubmitRecord) {
        NOT_RECORDING_MESSAGE@
    } else {
        error_user_message(code)
    }
}

pub fn request_error_message(code: ErrorCode, method: Option<Method>) -> (s: &'static str)
    ensures s@ == request_error_text(code, method),
{
    match (code, method) {
        (ErrorCode::NotFound, Some(Method::SubmitRecord)) => NOT_RECORDING_MESSAGE,
        _ => code.user_message(),
    }
}

/// The reply to a request that could not be read: a method name no method
/// has is `NotFound` with `Unknown method`; anything else malformed is
/// `InvalidProfile` with its user sentence.
pub fn request_parse_error(unknown_method: bool) -> (e: WireError)
    ensures
        unknown_method ==> e.code == ErrorCode::NotFound && e.message@ == UNKNOWN_METHOD_MESSAGE@,
        !unknown_method ==> e.code == ErrorCode::InvalidProfile
            && e.message@ == error_user_message(ErrorCode::InvalidProfile),
{
    if unknown_method {
        WireError { code: ErrorCode::NotFound, message: UNKNOWN_METHOD_MESSAGE.to_owned() }
    } else {
        WireError::from_code(ErrorCode::InvalidProfile)
    }
}

/// Reading a method's wire name back gives the method.
pub proof fn lemma_method_names_round_trip(m: Method, n: Method)
    ensures method_name(m) == method_name(n) ==> m == n,
{

    reveal_strlit("GetStatus");
    reveal_strlit("ListProfiles");
    reveal_strlit("ApplyProfile");
    reveal_strlit("SetBinding");
    reveal_strlit("ClearBinding");
    reveal_strlit("StartRecord");
    reveal_strlit("StopRecord");
    reveal_strlit("SubmitRecord");
    reveal_strlit("SetLighting");
    reveal_strlit("RevertProfile");
    reveal_strlit("CreateProfile");
    reveal_strlit("DeleteProfile");
    reveal_strlit("ShowWindow");
    reveal_strlit("QuitDaemon");
    if method_name(m) == method_name(n) {
        assert(method_name(m).len() == method_name(n).len());
        assert(method_name(m)[0] == method_name(n)[0]);
        assert(method_name(m)[1] == method_name(n)[1]);
    }
}

} // verus!
