//! The firmware variables: their identities, the value to store, and how it gets stored.

use crate::failure::{ErrorKind, Failure, Stage};
use crate::platform::{no_lines, spec_store_error, store_error, Reply, ReplyView};
use crate::string::{encode_utf16le, from_utf16le, utf16le_bytes, utf16le_text};
use vstd::prelude::*;
use vstd::slice::slice_to_vec;
use vstd::string::StringExecFns;

verus! {

/// The identity of the variable that the boot manager reads: name, a hyphen, namespace.
pub const REFIND_PREVIOUSBOOT_NAME: &'static str =
    "PreviousBoot-36d08fa7-cf0b-42f5-8f14-68df73ed3740";

/// The identity of the variable that keeps the value before the last change.
pub const BACKUP_PREVIOUSBOOT_NAME: &'static str =
    "PreviousBootBackup-2bd809f0-cba2-4074-bbe8-56a655f07262";

/// One of the two firmware variables that a run touches.
#[derive(Debug, Clone, Copy, PartialEq, Eq, Structural)]
pub enum VariableId {
    /// Holds what the boot manager boots next.
    Target,
    /// Holds what the target held before its most recent change.
    Backup,
}

impl VariableId {
    /// The identity under which the variable store knows this variable.
    pub open spec fn spec_name(self) -> Seq<char> {
        match self {
            VariableId::Target => REFIND_PREVIOUSBOOT_NAME@,
            VariableId::Backup => BACKUP_PREVIOUSBOOT_NAME@,
        }
    }

    /// The identity under which the variable store knows this variable.
    pub fn name(self) -> (name: &'static str)
        ensures
            name@ == self.spec_name(),
    {
        match self {
            VariableId::Target => REFIND_PREVIOUSBOOT_NAME,
            VariableId::Backup => BACKUP_PREVIOUSBOOT_NAME,
        }
    }
}

/// The text to store for a target: the identifier, one space, and the terminator.
pub open spec fn spec_next_value(target_os: Seq<char>) -> Seq<char> {
    target_os + seq![' ', '\0']
}

/// The text to store for a target: the identifier, one space, and the terminator.
pub fn next_value(target_os: &str) -> (next: String)
    ensures
        next@ == spec_next_value(target_os@),
{
    let mut next = target_os.to_owned();
    next.append(" \0");
    proof {
        reveal_strlit(" \0");
        assert(" \0"@ =~= seq![' ', '\0']);
    }
    next
}

/// The program that runs another with privilege.
pub const ELEVATION_LAUNCHER: &'static str = "/usr/bin/sudo";

/// The argument by which a run is told that it already has privilege.
pub const PRIVILEGED_FLAG: &'static str = "--privileged";

/// The argument that asks for a dry run.
pub const DRY_RUN_FLAG: &'static str = "--dry-run";

/// How this program is run again with privilege: the launcher, and the arguments that this
/// program gets. The launcher's first argument is the path of this program, which the
/// caller knows; these follow it.
#[derive(Debug, Clone, PartialEq, Eq)]
pub struct Escalation {
    pub launcher: String,
    pub args: Vec<String>,
}

/// An escalation, with its texts as sequences.
pub struct EscalationView {
    pub launcher: Seq<char>,
    pub args: Seq<Seq<char>>,
}

impl View for Escalation {
    type V = EscalationView;

    open spec fn view(&self) -> EscalationView {
        EscalationView { launcher: self.launcher@, args: self.args.deep_view() }
    }
}

/// The privileged run for a target: the target as given, then the mark of privilege, so
/// that the run does not escalate again, then the dry-run flag where this run has it.
pub open spec fn spec_set(dry_run: bool, target_os: Seq<char>) -> EscalationView {
    EscalationView {
        launcher: ELEVATION_LAUNCHER@,
        args: if dry_run {
            seq![target_os, PRIVILEGED_FLAG@, DRY_RUN_FLAG@]
        } else {
            seq![target_os, PRIVILEGED_FLAG@]
        },
    }
}

/// Says how to store the value for `target_os` from a run without privilege: by running
/// this program again with privilege.
pub fn set(dry_run: bool, target_os: &str) -> (escalation: Escalation)
    ensures
        escalation@ == spec_set(dry_run, target_os@),
{
    let mut args: Vec<String> = Vec::new();
    args.push(target_os.to_owned());
    args.push(PRIVILEGED_FLAG.to_owned());
    if dry_run {
        args.push(DRY_RUN_FLAG.to_owned());
    }
    let escalation = Escalation { launcher: ELEVATION_LAUNCHER.to_owned(), args };
    assert(escalation.args.deep_view() =~= spec_set(dry_run, target_os@).args);
    escalation
}

/// What the end of the privileged run amounts to: success where it exited with code 0, a
/// failure with any other code, and without a code, as when a signal ended it.
pub open spec fn spec_child_reply(code: Option<i32>) -> ReplyView {
    if code == Some(0i32) {
        ReplyView::Done
    } else {
        ReplyView::Failed
    }
}

/// Reads the exit status of the privileged run; `code` is its exit code, if it has one.
pub fn child_reply(code: Option<i32>) -> (reply: Reply)
    ensures
        reply@ == spec_child_reply(code),
{
    match code {
        Some(0) => Reply::Done,
        _ => Reply::Failed,
    }
}

/// How far storing the value has come.
#[derive(Debug, Clone, Copy, PartialEq, Eq, Structural)]
pub enum ApplyPhase {
    /// Nothing was asked yet.
    Begin,
    /// The backup variable is being written; in a dry run, read.
    Backup,
    /// The target variable is being written; in a dry run, nothing is.
    Target,
}

/// What storing the value needs next.
#[derive(Debug, Clone, PartialEq, Eq)]
pub enum ApplyNext {
    /// Read the backup variable, to show what it holds.
    ReadBackup,
    /// Write the backup variable.
    WriteBackup { flags: u32, payload: Vec<u8> },
    /// Write the target variable.
    WriteTarget { flags: u32, payload: Vec<u8> },
    /// Nothing outside: a dry run has said what it leaves undone.
    Described,
    /// The value is stored; in a dry run, all is said.
    Applied,
    /// Storing failed, and nothing more is to be written.
    Failed { failure: Failure },
}

/// One step of storing the value: the lines to show, and what is needed next.
#[derive(Debug, Clone, PartialEq, Eq)]
pub struct ApplyStep {
    pub lines: Vec<String>,
    pub next: ApplyNext,
}

/// What storing the value needs next, with its payload as a sequence.
pub enum ApplyNextView {
    ReadBackup,
    WriteBackup { flags: u32, payload: Seq<u8> },
    WriteTarget { flags: u32, payload: Seq<u8> },
    Described,
    Applied,
    Failed { failure: Failure },
}

/// One step of storing the value, with its lines and payload as sequences.
pub struct ApplyStepView {
    pub lines: Seq<Seq<char>>,
    pub next: ApplyNextView,
}

impl View for ApplyNext {
    type V = ApplyNextView;

    open spec fn view(&self) -> ApplyNextView {
        match *self {
            ApplyNext::ReadBackup => ApplyNextView::ReadBackup,
            ApplyNext::WriteBackup { flags, payload } => ApplyNextView::WriteBackup {
                flags,
                payload: payload@,
            },
            ApplyNext::WriteTarget { flags, payload } => ApplyNextView::WriteTarget {
                flags,
                payload: payload@,
            },
            ApplyNext::Described => ApplyNextView::Described,
            ApplyNext::Applied => ApplyNextView::Applied,
            ApplyNext::Failed { failure } => ApplyNextView::Failed { failure },
        }
    }
}

impl View for ApplyStep {
    type V = ApplyStepView;

    open spec fn view(&self) -> ApplyStepView {
        ApplyStepView { lines: self.lines.deep_view(), next: self.next@ }
    }
}

/// The line that opens storing the value.
pub open spec fn spec_setting_line() -> Seq<char> {
    "Setting EFI vars..."@
}

/// The line by which a dry run says that it would overwrite a variable.
pub open spec fn spec_would_set_line(variable: VariableId, value: Seq<char>, was: Seq<char>) -> Seq<
    char,
> {
    "[dry run] set EFI variable `"@ + variable.spec_name() + "` to '"@ + value + "' (was '"@ + was
        + "')"@
}

/// The line by which a dry run says that it would create a variable.
pub open spec fn spec_would_create_line(variable: VariableId, value: Seq<char>) -> Seq<char> {
    "[dry run] create EFI variable `"@ + variable.spec_name() + "` with value '"@ + value + "'"@
}

/// The line that closes storing the value.
pub open spec fn spec_success_line(value: Seq<char>, was: Seq<char>) -> Seq<char> {
    "Success: EFI variable `"@ + VariableId::Target.spec_name() + "` set to '"@ + value
        + "' (was '"@ + was + "')"@
}

/// The line by which a dry run says that it would overwrite a variable.
pub fn would_set_line(variable: VariableId, value: &str, was: &str) -> (line: String)
    ensures
        line@ == spec_would_set_line(variable, value@, was@),
{
    let mut line = "[dry run] set EFI variable `".to_owned();
    line.append(variable.name());
    line.append("` to '");
    line.append(value);
    line.append("' (was '");
    line.append(was);
    line.append("')");
    line
}

/// The line by which a dry run says that it would create a variable.
pub fn would_create_line(variable: VariableId, value: &str) -> (line: String)
    ensures
        line@ == spec_would_create_line(variable, value@),
{
    let mut line = "[dry run] create EFI variable `".to_owned();
    line.append(variable.name());
    line.append("` with value '");
    line.append(value);
    line.append("'");
    line
}

/// The line that closes storing the value.
pub fn success_line(value: &str, was: &str) -> (line: String)
    ensures
        line@ == spec_success_line(value@, was@),
{
    let mut line = "Success: EFI variable `".to_owned();
    line.append(VariableId::Target.name());
    line.append("` set to '");
    line.append(value);
    line.append("' (was '");
    line.append(was);
    line.append("')");
    line
}

/// Storing the value, step by step.
///
/// Outside a dry run the backup variable is written first, with the payload and flags that
/// the target had, and the target only once that write has succeeded; a failed write ends
/// it. A dry run writes nothing: it reads the backup variable and says in place of each
/// write what the write would do; a backup variable that does not exist would be created.
pub open spec fn spec_set_privileged(
    dry_run: bool,
    flags: u32,
    prev_utf16le: Seq<u8>,
    prev: Seq<char>,
    next: Seq<char>,
    phase: ApplyPhase,
    reply: ReplyView,
) -> ApplyStepView {
    match phase {
        ApplyPhase::Begin => ApplyStepView {
            lines: seq![spec_setting_line()],
            next: if dry_run {
                ApplyNextView::ReadBackup
            } else {
                ApplyNextView::WriteBackup { flags, payload: prev_utf16le }
            },
        },
        ApplyPhase::Backup => if dry_run {
            match reply {
                ReplyView::Value { payload, flags: _ } => match utf16le_text(payload) {
                    Some(backup) => ApplyStepView {
                        lines: seq![spec_would_set_line(VariableId::Backup, prev, backup)],
                        next: ApplyNextView::Described,
                    },
                    None => spec_apply_failed(Stage::DecodeBackup, ErrorKind::InvalidEncoding),
                },
                ReplyView::NotFound => ApplyStepView {
                    lines: seq![spec_would_create_line(VariableId::Backup, prev)],
                    next: ApplyNextView::Described,
                },
                _ => spec_apply_failed(Stage::ReadBackup, spec_store_error(reply)),
            }
        } else {
            match reply {
                ReplyView::Done => ApplyStepView {
                    lines: Seq::empty(),
                    next: ApplyNextView::WriteTarget { flags, payload: utf16le_bytes(next) },
                },
                _ => spec_apply_failed(Stage::WriteBackup, spec_store_error(reply)),
            }
        },
        ApplyPhase::Target => if dry_run {
            ApplyStepView {
                lines: seq![
                    spec_would_set_line(VariableId::Target, next, prev),
                    spec_success_line(next, prev),
                ],
                next: ApplyNextView::Applied,
            }
        } else {
            match reply {
                ReplyView::Done => ApplyStepView {
                    lines: seq![spec_success_line(next, prev)],
                    next: ApplyNextView::Applied,
                },
                _ => spec_apply_failed(Stage::WriteTarget, spec_store_error(reply)),
            }
        },
    }
}

/// The step that ends storing in a failure.
pub open spec fn spec_apply_failed(stage: Stage, kind: ErrorKind) -> ApplyStepView {
    ApplyStepView {
        lines: Seq::empty(),
        next: ApplyNextView::Failed { failure: Failure { stage, kind } },
    }
}

/// The step that ends storing in a failure.
fn apply_failed(stage: Stage, kind: ErrorKind) -> (step: ApplyStep)
    ensures
        step@ == spec_apply_failed(stage, kind),
{
    ApplyStep { lines: no_lines(), next: ApplyNext::Failed { failure: Failure { stage, kind } } }
}

/// A step with one line.
fn apply_line(line: String, next: ApplyNext) -> (step: ApplyStep)
    ensures
        step@ == (ApplyStepView { lines: seq![line@], next: next@ }),
{
    let mut lines: Vec<String> = Vec::new();
    lines.push(line);
    let step = ApplyStep { lines, next };
    assert(step.lines.deep_view() =~= seq![line@]);
    step
}

/// Stores the value from a run with privilege, one step at a time: `phase` says how far it
/// has come, `reply` what came of the step before. The caller performs what the step needs
/// next and calls again with the phase of that need.
///
/// `flags` and `prev_utf16le` are what the target variable holds, `prev` and `next` its
/// text and the text to store.
pub fn set_privileged(
    dry_run: bool,
    flags: u32,
    prev_utf16le: &[u8],
    prev: &str,
    next: &str,
    phase: ApplyPhase,
    reply: &Reply,
) -> (step: ApplyStep)
    ensures
        step@ == spec_set_privileged(dry_run, flags, prev_utf16le@, prev@, next@, phase, reply@),
        dry_run ==> !(step.next is WriteBackup) && !(step.next is WriteTarget),
{
    match phase {
        ApplyPhase::Begin => {
            let next_need = if dry_run {
                ApplyNext::ReadBackup
            } else {
                ApplyNext::WriteBackup { flags, payload: slice_to_vec(prev_utf16le) }
            };
            apply_line("Setting EFI vars...".to_owned(), next_need)
        },
        ApplyPhase::Backup => {
            if dry_run {
                match reply {
                    Reply::Value { payload, flags: _ } => match from_utf16le(payload.as_slice()) {
                        Ok(backup) => apply_line(
                            would_set_line(VariableId::Backup, prev, backup.as_str()),
                            ApplyNext::Described,
                        ),
                        Err(_) => apply_failed(Stage::DecodeBackup, ErrorKind::InvalidEncoding),
                    },
                    Reply::NotFound => apply_line(
                        would_create_line(VariableId::Backup, prev),
                        ApplyNext::Described,
                    ),
                    _ => apply_failed(Stage::ReadBackup, store_error(reply)),
                }
            } else {
                match reply {
                    Reply::Done => ApplyStep {
                        lines: no_lines(),
                        next: ApplyNext::WriteTarget { flags, payload: encode_utf16le(next) },
                    },
                    _ => apply_failed(Stage::WriteBackup, store_error(reply)),
                }
            }
        },
        ApplyPhase::Target => {
            if dry_run {
                let mut lines: Vec<String> = Vec::new();
                lines.push(would_set_line(VariableId::Target, next, prev));
                lines.push(success_line(next, prev));
                let step = ApplyStep { lines, next: ApplyNext::Applied };
                assert(step.lines.deep_view() =~= seq![
                    spec_would_set_line(VariableId::Target, next@, prev@),
                    spec_success_line(next@, prev@),
                ]);
                step
            } else {
                match reply {
                    Reply::Done => apply_line(success_line(next, prev), ApplyNext::Applied),
                    _ => apply_failed(Stage::WriteTarget, store_error(reply)),
                }
            }
        },
    }
}

} // verus!
