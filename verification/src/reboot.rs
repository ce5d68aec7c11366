//! The reboot request: what is asked of the platform, and what a dry run says instead.

use vstd::prelude::*;
use vstd::string::StringExecFns;

verus! {

/// The session-bus name of the service that prompts for a reboot.
pub const LOGOUT_PROMPT_DESTINATION: &'static str = "org.kde.LogoutPrompt";

/// The object of that service.
pub const LOGOUT_PROMPT_PATH: &'static str = "/LogoutPrompt";

/// The interface of that object.
pub const LOGOUT_PROMPT_INTERFACE: &'static str = "org.kde.LogoutPrompt";

/// The method that prompts for a reboot; it takes no argument.
pub const LOGOUT_PROMPT_METHOD: &'static str = "promptReboot";

/// The system's restart primitive.
pub const RESTART_PRIMITIVE: &'static str = "ExitWindowsEx";

/// The name of the flag that makes the primitive shut the system down and start it again.
pub const RESTART_FLAG_NAME: &'static str = "EWX_REBOOT";

/// The value of that flag.
pub const RESTART_FLAG: u32 = 0x2;

/// The name of the major reason given for the restart: none of the listed ones.
pub const RESTART_REASON_MAJOR_NAME: &'static str = "SHTDN_REASON_MAJOR_OTHER";

/// The value of that reason.
pub const RESTART_REASON_MAJOR: u32 = 0x0;

/// The name of the minor reason given for the restart: none of the listed ones.
pub const RESTART_REASON_MINOR_NAME: &'static str = "SHTDN_REASON_MINOR_OTHER";

/// The value of that reason.
pub const RESTART_REASON_MINOR: u32 = 0x0;

/// The way in which the platform is asked to reboot.
#[derive(Debug, Clone, Copy, PartialEq, Eq, Structural)]
pub enum RebootCall {
    /// One call without arguments to the desktop session's reboot prompt, over the session
    /// bus.
    SessionPrompt,
    /// The system's restart primitive, called with `RESTART_FLAG` and, as its reason,
    /// `RESTART_REASON_MAJOR` joined with `RESTART_REASON_MINOR`; the calling thread is
    /// given the right to shut down just before, and loses it just after.
    SystemRestart,
}

impl RebootCall {
    /// The call as a dry run shows it: for the session prompt the bus name, the object and
    /// the method; for the system restart the primitive with the names of the flag and of
    /// the two reasons that it is called with.
    pub open spec fn spec_description(self) -> Seq<char> {
        match self {
            RebootCall::SessionPrompt => "DBUS "@ + LOGOUT_PROMPT_DESTINATION@ + " "@
                + LOGOUT_PROMPT_PATH@ + " "@ + LOGOUT_PROMPT_METHOD@,
            RebootCall::SystemRestart => RESTART_PRIMITIVE@ + "("@ + RESTART_FLAG_NAME@ + ", "@
                + RESTART_REASON_MAJOR_NAME@ + " | "@ + RESTART_REASON_MINOR_NAME@ + ")"@,
        }
    }

    /// The call as a dry run shows it, made of the names that the real call is made with.
    pub fn description(self) -> (text: String)
        ensures
            text@ == self.spec_description(),
    {
        match self {
            RebootCall::SessionPrompt => {
                let mut text = "DBUS ".to_owned();
                text.append(LOGOUT_PROMPT_DESTINATION);
                text.append(" ");
                text.append(LOGOUT_PROMPT_PATH);
                text.append(" ");
                text.append(LOGOUT_PROMPT_METHOD);
                text
            },
            RebootCall::SystemRestart => {
                let mut text = RESTART_PRIMITIVE.to_owned();
                text.append("(");
                text.append(RESTART_FLAG_NAME);
                text.append(", ");
                text.append(RESTART_REASON_MAJOR_NAME);
                text.append(" | ");
                text.append(RESTART_REASON_MINOR_NAME);
                text.append(")");
                text
            },
        }
    }
}

/// What `reboot` decides: the lines to show, and the call to make, if any.
#[derive(Debug, Clone, PartialEq, Eq)]
pub struct RebootPlan {
    pub lines: Vec<String>,
    pub call: Option<RebootCall>,
}

/// The lines that announce a reboot: the announcement and, in a dry run, the call that is
/// not made.
pub open spec fn spec_reboot_lines(call: RebootCall, dry_run: bool) -> Seq<Seq<char>> {
    if dry_run {
        seq!["Rebooting..."@, "[dry run] "@ + call.spec_description()]
    } else {
        seq!["Rebooting..."@]
    }
}

/// Decides how to reboot. A dry run makes no call and describes it instead.
pub fn reboot(call: RebootCall, dry_run: bool) -> (plan: RebootPlan)
    ensures
        plan.lines.deep_view() == spec_reboot_lines(call, dry_run),
        plan.call == if dry_run {
            None
        } else {
            Some(call)
        },
{
    let mut lines: Vec<String> = Vec::new();
    lines.push("Rebooting...".to_owned());
    if dry_run {
        let mut line = "[dry run] ".to_owned();
        let description = call.description();
        line.append(description.as_str());
        lines.push(line);
        assert(lines.deep_view() =~= spec_reboot_lines(call, dry_run));
        RebootPlan { lines, call: None }
    } else {
        assert(lines.deep_view() =~= spec_reboot_lines(call, dry_run));
        RebootPlan { lines, call: Some(call) }
    }
}

} // verus!
