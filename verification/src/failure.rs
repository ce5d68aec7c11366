//! What can go wrong in a run, and at which stage.

use vstd::prelude::*;
use vstd::string::StringExecFns;

verus! {

/// The kind of a failure.
#[derive(Debug, Clone, Copy, PartialEq, Eq, Structural)]
pub enum ErrorKind {
    /// The variable does not exist.
    NotFound,
    /// A payload of odd length, or one with an unpaired surrogate.
    InvalidEncoding,
    /// The variable store refused the access.
    PermissionDenied,
    /// The variable store failed in any other way.
    IoError,
    /// The privileged run could not be started, or did not end in success.
    EscalationFailure,
    /// The reboot request was not accepted.
    RebootRequestFailure,
}

/// The stage of a run at which a failure arose.
#[derive(Debug, Clone, Copy, PartialEq, Eq, Structural)]
pub enum Stage {
    /// Reading the target variable.
    ReadTarget,
    /// Decoding the payload of the target variable.
    DecodeTarget,
    /// Reading the backup variable, which only a dry run does.
    ReadBackup,
    /// Decoding the payload of the backup variable.
    DecodeBackup,
    /// Writing the backup variable.
    WriteBackup,
    /// Writing the target variable.
    WriteTarget,
    /// Running this program again with privilege.
    Escalate,
    /// Requesting the reboot.
    Reboot,
}

/// A failure: it ends the run, and nothing is tried again.
#[derive(Debug, Clone, Copy, PartialEq, Eq, Structural)]
pub struct Failure {
    pub stage: Stage,
    pub kind: ErrorKind,
}

impl ErrorKind {
    /// The cause in words.
    pub open spec fn spec_cause(self) -> Seq<char> {
        match self {
            ErrorKind::NotFound => "variable not found"@,
            ErrorKind::InvalidEncoding => "invalid utf-16: lone surrogate found"@,
            ErrorKind::PermissionDenied => "permission denied"@,
            ErrorKind::IoError => "i/o error"@,
            ErrorKind::EscalationFailure => "the privileged run did not succeed"@,
            ErrorKind::RebootRequestFailure => "the reboot request did not succeed"@,
        }
    }

    /// The cause in words.
    pub fn cause(self) -> (text: &'static str)
        ensures
            text@ == self.spec_cause(),
    {
        match self {
            ErrorKind::NotFound => "variable not found",
            ErrorKind::InvalidEncoding => "invalid utf-16: lone surrogate found",
            ErrorKind::PermissionDenied => "permission denied",
            ErrorKind::IoError => "i/o error",
            ErrorKind::EscalationFailure => "the privileged run did not succeed",
            ErrorKind::RebootRequestFailure => "the reboot request did not succeed",
        }
    }
}

impl Stage {
    /// What was being done, in words.
    pub open spec fn spec_context(self) -> Seq<char> {
        match self {
            Stage::ReadTarget => "failed to read previous EFI variable value"@,
            Stage::DecodeTarget => "failed to parse value as utf16le"@,
            Stage::ReadBackup => "failed to read backup EFI variable value"@,
            Stage::DecodeBackup => "failed to parse backup value as utf16le"@,
            Stage::WriteBackup => "failed to write backup EFI variable"@,
            Stage::WriteTarget => "failed to write EFI variable"@,
            Stage::Escalate => "failed to run as privileged"@,
            Stage::Reboot => "reboot failed"@,
        }
    }

    /// What was being done, in words.
    pub fn context(self) -> (text: &'static str)
        ensures
            text@ == self.spec_context(),
    {
        match self {
            Stage::ReadTarget => "failed to read previous EFI variable value",
            Stage::DecodeTarget => "failed to parse value as utf16le",
            Stage::ReadBackup => "failed to read backup EFI variable value",
            Stage::DecodeBackup => "failed to parse backup value as utf16le",
            Stage::WriteBackup => "failed to write backup EFI variable",
            Stage::WriteTarget => "failed to write EFI variable",
            Stage::Escalate => "failed to run as privileged",
            Stage::Reboot => "reboot failed",
        }
    }
}

impl Failure {
    /// The diagnostic: the stage's words, a colon and a space, the cause's words.
    pub open spec fn spec_message(self) -> Seq<char> {
        self.stage.spec_context() + ": "@ + self.kind.spec_cause()
    }

    /// The diagnostic for the user: which stage failed, and why.
    pub fn message(&self) -> (text: String)
        ensures
            text@ == self.spec_message(),
    {
        let mut text = self.stage.context().to_owned();
        text.append(": ");
        text.append(self.kind.cause());
        text
    }
}

} // verus!
