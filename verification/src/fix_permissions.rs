//! The permissions helper's decisions: which user pkexec acts for, and the
//! steps that give that user the keypad and `/dev/uinput`.

use vstd::prelude::*;
use crate::text::{chars_of, decimal_u32, from_chars, parse_u32, trim_chars, trim_seq};

verus! {

/// The group the udev rule gives the keypad and uinput nodes to.
pub const GROUP_NAME: &'static str = "opentartarus";
/// Where the helper installs the udev rule.
pub const RULES_PATH: &'static str = "/etc/udev/rules.d/99-opentartarus.rules";
/// The variable pkexec sets to the uid of the user who asked.
pub const PKEXEC_UID_VAR: &'static str = "PKEXEC_UID";

/// The udev rule the helper installs: the keypads' input nodes and uinput
/// go to the group, and no other Razer product does.
pub const UDEV_RULES: &'static str = "# OpenTartarus: the Razer Tartarus V2 and Tartarus Pro, and uinput, for the opentartarus group.\nSUBSYSTEM==\"input\", ATTRS{idVendor}==\"1532\", ATTRS{idProduct}==\"022b\", GROUP=\"opentartarus\", MODE=\"0660\"\nSUBSYSTEM==\"input\", ATTRS{idVendor}==\"1532\", ATTRS{idProduct}==\"0244\", GROUP=\"opentartarus\", MODE=\"0660\"\nKERNEL==\"uinput\", SUBSYSTEM==\"misc\", GROUP=\"opentartarus\", MODE=\"0660\", OPTIONS+=\"static_node=uinput\"\n";

/// Why the helper stopped.
#[derive(Debug, Clone, Copy, PartialEq, Eq, Structural)]
pub enum HelperError {
    MissingPkexecUid,
    InvalidPkexecUid,
    UserLookup,
    GroupAdd,
    UserMod,
    WriteRules,
    UdevReload,
    UdevTrigger,
}

pub open spec fn helper_message(e: HelperError) -> Seq<char> {
    match e {
        HelperError::MissingPkexecUid => "PKEXEC_UID is not set"@,
        HelperError::InvalidPkexecUid => "PKEXEC_UID is not a valid uid"@,
        HelperError::UserLookup => "could not resolve user from PKEXEC_UID"@,
        HelperError::GroupAdd => "groupadd failed"@,
        HelperError::UserMod => "usermod failed"@,
        HelperError::WriteRules => "could not write udev rules"@,
        HelperError::UdevReload => "udevadm reload-rules failed"@,
        HelperError::UdevTrigger => "udevadm trigger failed"@,
    }
}

impl HelperError {
    /// The line the helper prints when it stops on this error.
    pub fn message(self) -> (s: &'static str)
        ensures s@ == helper_message(self),
    {
        let s = match self {
            HelperError::MissingPkexecUid => "PKEXEC_UID is not set",
            HelperError::InvalidPkexecUid => "PKEXEC_UID is not a valid uid",
            HelperError::UserLookup => "could not resolve user from PKEXEC_UID",
            HelperError::GroupAdd => "groupadd failed",
            HelperError::UserMod => "usermod failed",
            HelperError::WriteRules => "could not write udev rules",
            HelperError::UdevReload => "udevadm reload-rules failed",
            HelperError::UdevTrigger => "udevadm trigger failed",
        };
        proof {
            reveal_strlit("PKEXEC_UID is not set");
            reveal_strlit("PKEXEC_UID is not a valid uid");
            reveal_strlit("could not resolve user from PKEXEC_UID");
            reveal_strlit("groupadd failed");
            reveal_strlit("usermod failed");
            reveal_strlit("could not write udev rules");
            reveal_strlit("udevadm reload-rules failed");
            reveal_strlit("udevadm trigger failed");
        }
        s
    }
}

/// The uid pkexec passed, as given, once it reads as a `u32`; unset (or
/// not text, `None`) and not a number are the two errors.
pub fn checked_pkexec_uid(var: Option<String>) -> (r: Result<String, HelperError>)
    ensures
        match var {
            None => r == Err::<String, HelperError>(HelperError::MissingPkexecUid),
            Some(v) => if decimal_u32(v@) is Some {
                r matches Ok(u) && u@ == v@
            } else {
                r == Err::<String, HelperError>(HelperError::InvalidPkexecUid)
            },
        },
{
    match var {
        None => Err(HelperError::MissingPkexecUid),
        Some(v) => match parse_u32(v.as_str()) {
            Some(_) => Ok(v),
            None => Err(HelperError::InvalidPkexecUid),
        },
    }
}

/// The user name `id -nu` printed, trimmed. A failed lookup, output that
/// is not text (`None`) or a blank name all fail the lookup.
pub fn user_from_id_output(succeeded: bool, stdout: Option<String>) -> (r: Result<String, HelperError>)
    ensures
        (r is Ok) <==> (succeeded && (stdout matches Some(o) && trim_seq(o@).len() > 0)),
        r matches Ok(n) ==> n@ == trim_seq(stdout->0@),
        r matches Err(e) ==> e == HelperError::UserLookup,
{
    if !succeeded {
        return Err(HelperError::UserLookup);
    }
    match stdout {
        None => Err(HelperError::UserLookup),
        Some(o) => {
            let name = trim_chars(&chars_of(o.as_str()));
            if name.len() == 0 {
                Err(HelperError::UserLookup)
            } else {
                Ok(from_chars(&name))
            }
        },
    }
}

/// One thing the helper does: run a program, stopping with `on_fail` if
/// it cannot start or exits unsuccessfully; or write the udev rule unless
/// a file is already there.
#[derive(Debug, Clone, PartialEq, Eq)]
pub enum HelperStep {
    Run { program: &'static str, args: Vec<String>, on_fail: HelperError },
    WriteRulesIfMissing,
}

pub enum HelperStepView {
    Run { program: Seq<char>, args: Seq<Seq<char>>, on_fail: HelperError },
    WriteRulesIfMissing,
}

pub open spec fn step_view(s: HelperStep) -> HelperStepView {
    match s {
        HelperStep::Run { program, args, on_fail } => HelperStepView::Run {
            program: program@,
            args: args@.map_values(|a: String| a@),
            on_fail,
        },
        HelperStep::WriteRulesIfMissing => HelperStepView::WriteRulesIfMissing,
    }
}

/// The helper's work for `user`, in order: make the group, add the user
/// to it, install the rule, reload the rules, and replay the devices.
pub open spec fn helper_plan(user: Seq<char>) -> Seq<HelperStepView> {
    seq![
        HelperStepView::Run { program: "groupadd"@, args: seq!["-f"@, GROUP_NAME@], on_fail: HelperError::GroupAdd },
        HelperStepView::Run { program: "usermod"@, args: seq!["-aG"@, GROUP_NAME@, user], on_fail: HelperError::UserMod },
        HelperStepView::WriteRulesIfMissing,
        HelperStepView::Run {
            program: "udevadm"@,
            args: seq!["control"@, "--reload-rules"@],
            on_fail: HelperError::UdevReload,
        },
        HelperStepView::Run { program: "udevadm"@, args: seq!["trigger"@], on_fail: HelperError::UdevTrigger },
    ]
}

fn run_step(program: &'static str, args: Vec<String>, on_fail: HelperError) -> (s: HelperStep)
    ensures s == (HelperStep::Run { program, args, on_fail }),
{
    HelperStep::Run { program, args, on_fail }
}

pub fn helper_steps(user: &str) -> (r: Vec<HelperStep>)
    ensures r@.map_values(|s: HelperStep| step_view(s)) == helper_plan(user@),
{
    let mut steps: Vec<HelperStep> = Vec::new();
    let mut a: Vec<String> = Vec::new();
    a.push("-f".to_owned());
    a.push(GROUP_NAME.to_owned());
    let ghost a0 = a@;
    steps.push(run_step("groupadd", a, HelperError::GroupAdd));
    let mut b: Vec<String> = Vec::new();
    b.push("-aG".to_owned());
    b.push(GROUP_NAME.to_owned());
    b.push(user.to_owned());
    let ghost b0 = b@;
    steps.push(run_step("usermod", b, HelperError::UserMod));
    steps.push(HelperStep::WriteRulesIfMissing);
    let mut c: Vec<String> = Vec::new();
    c.push("control".to_owned());
    c.push("--reload-rules".to_owned());
    let ghost c0 = c@;
    steps.push(run_step("udevadm", c, HelperError::UdevReload));
    let mut d: Vec<String> = Vec::new();
    d.push("trigger".to_owned());
    let ghost d0 = d@;
    steps.push(run_step("udevadm", d, HelperError::UdevTrigger));
    proof {
        assert(a0.map_values(|a: String| a@) =~= seq!["-f"@, GROUP_NAME@]);
        assert(b0.map_values(|a: String| a@) =~= seq!["-aG"@, GROUP_NAME@, user@]);
        assert(c0.map_values(|a: String| a@) =~= seq!["control"@, "--reload-rules"@]);
        assert(d0.map_values(|a: String| a@) =~= seq!["trigger"@]);
        assert(steps@.map_values(|s: HelperStep| step_view(s)) =~= helper_plan(user@));
    }
    steps
}

} // verus!
