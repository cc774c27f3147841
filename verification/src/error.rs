//! The error codes the daemon reports, with their wire names and the
//! sentences the window shows for them.

use vstd::prelude::*;

verus! {

#[derive(Debug, Clone, Copy, PartialEq, Eq, Structural)]
pub enum ErrorCode {
    Permission,
    Disconnect,
    Lighting,
    GrabConflict,
    InvalidProfile,
    UnknownKey,
    RecordBusy,
    NotFound,
    Io,
    AlreadyRunning,
}

pub open spec fn error_wire_name(code: ErrorCode) -> Seq<char> {
    match code {
        ErrorCode::Permission => "permission"@,
        ErrorCode::Disconnect => "disconnect"@,
        ErrorCode::Lighting => "lighting"@,
        ErrorCode::GrabConflict => "grab_conflict"@,
        ErrorCode::InvalidProfile => "invalid_profile"@,
        ErrorCode::UnknownKey => "unknown_key"@,
        ErrorCode::RecordBusy => "record_busy"@,
        ErrorCode::NotFound => "not_found"@,
        ErrorCode::Io => "io"@,
        ErrorCode::AlreadyRunning => "already_running"@,
    }
}

pub open spec fn error_user_message(code: ErrorCode) -> Seq<char> {
    match code {
        ErrorCode::Permission => "OpenTartarus can’t talk to your keypad yet."@,
        ErrorCode::Disconnect => "Tartarus disconnected."@,
        ErrorCode::Lighting => "Lighting needs OpenRazer or OpenRGB."@,
        ErrorCode::GrabConflict => "Something else is using the Tartarus. Quit that app and reopen OpenTartarus."@,
        ErrorCode::InvalidProfile => "That profile file is damaged. Revert to shipped or pick another."@,
        ErrorCode::UnknownKey => "That key isn’t on this keypad."@,
        ErrorCode::RecordBusy => "Already recording. Press a key or click Cancel."@,
        ErrorCode::NotFound => "That profile isn’t installed."@,
        ErrorCode::Io => "OpenTartarus couldn’t save. Try again."@,
        ErrorCode::AlreadyRunning => "already_running"@,
    }
}

impl ErrorCode {
    /// The snake_case name used on the wire and in the log.
    pub fn wire_name(self) -> (s: &'static str)
        ensures s@ == error_wire_name(self),
    {
        match self {
            ErrorCode::Permission => "permission",
            ErrorCode::Disconnect => "disconnect",
            ErrorCode::Lighting => "lighting",
            ErrorCode::GrabConflict => "grab_conflict",
            ErrorCode::InvalidProfile => "invalid_profile",
            ErrorCode::UnknownKey => "unknown_key",
            ErrorCode::RecordBusy => "record_busy",
            ErrorCode::NotFound => "not_found",
            ErrorCode::Io => "io",
            ErrorCode::AlreadyRunning => "already_running",
        }
    }

    /// The sentence the window shows for this error.
    pub fn user_message(self) -> (s: &'static str)
        ensures s@ == error_user_message(self),
    {
        match self {
            ErrorCode::Permission => "OpenTartarus can’t talk to your keypad yet.",
            ErrorCode::Disconnect => "Tartarus disconnected.",
            ErrorCode::Lighting => "Lighting needs OpenRazer or OpenRGB.",
            ErrorCode::GrabConflict => "Something else is using the Tartarus. Quit that app and reopen OpenTartarus.",
            ErrorCode::InvalidProfile => "That profile file is damaged. Revert to shipped or pick another.",
            ErrorCode::UnknownKey => "That key isn’t on this keypad.",
            ErrorCode::RecordBusy => "Already recording. Press a key or click Cancel.",
            ErrorCode::NotFound => "That profile isn’t installed.",
            ErrorCode::Io => "OpenTartarus couldn’t save. Try again.",
            ErrorCode::AlreadyRunning => "already_running",
        }
    }

    /// One log line: wire name, sentence, and the operating system's own
    /// words after `os=` (empty when there are none).
    pub fn log_line(self, os: Option<&str>) -> (s: String)
        ensures
            s@ == error_wire_name(self) + " "@ + error_user_message(self) + " os="@ + match os {
                Some(text) => text@,
                None => Seq::<char>::empty(),
            },
    {
        let mut s = String::from_str(self.wire_name());
        s.append(" ");
        s.append(self.user_message());
        s.append(" os=");
        match os {
            Some(text) => s.append(text),
            None => {},
        }
        proof {
            if os is None {
                assert(s@ =~= error_wire_name(self) + " "@ + error_user_message(self) + " os="@ + Seq::<char>::empty());
            }
        }
        s
    }
}

} // verus!
