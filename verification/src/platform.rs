//! What the library asks of the platform around it, and what the platform answers.
//!
//! The library performs none of this itself. Its caller performs each action and hands
//! back the reply.

use crate::efi::{Escalation, EscalationView, VariableId};
use crate::failure::{ErrorKind, Failure};
use crate::reboot::RebootCall;
use vstd::prelude::*;

verus! {

/// No lines to show.
pub(crate) fn no_lines() -> (lines: Vec<String>)
    ensures
        lines.deep_view() == Seq::<Seq<char>>::empty(),
{
    let lines: Vec<String> = Vec::new();
    assert(lines.deep_view() =~= Seq::<Seq<char>>::empty());
    lines
}

/// What came of an action.
#[derive(Debug, Clone, PartialEq, Eq)]
pub enum Reply {
    /// A variable was read: its payload and its attribute flags.
    Value { payload: Vec<u8>, flags: u32 },
    /// The action succeeded and gave nothing back.
    Done,
    /// The variable does not exist.
    NotFound,
    /// The variable store refused the access.
    PermissionDenied,
    /// The action failed in any other way.
    Failed,
}

/// A reply, with its payload as a sequence.
pub enum ReplyView {
    Value { payload: Seq<u8>, flags: u32 },
    Done,
    NotFound,
    PermissionDenied,
    Failed,
}

impl View for Reply {
    type V = ReplyView;

    open spec fn view(&self) -> ReplyView {
        match *self {
            Reply::Value { payload, flags } => ReplyView::Value { payload: payload@, flags },
            Reply::Done => ReplyView::Done,
            Reply::NotFound => ReplyView::NotFound,
            Reply::PermissionDenied => ReplyView::PermissionDenied,
            Reply::Failed => ReplyView::Failed,
        }
    }
}

/// The kind of failure that a reply other than the awaited one stands for: a missing
/// variable and a refused access as they are, anything else as an I/O error.
pub open spec fn spec_store_error(reply: ReplyView) -> ErrorKind {
    match reply {
        ReplyView::NotFound => ErrorKind::NotFound,
        ReplyView::PermissionDenied => ErrorKind::PermissionDenied,
        _ => ErrorKind::IoError,
    }
}

/// The kind of failure that a reply other than the awaited one stands for.
pub fn store_error(reply: &Reply) -> (kind: ErrorKind)
    ensures
        kind == spec_store_error(reply@),
{
    match reply {
        Reply::NotFound => ErrorKind::NotFound,
        Reply::PermissionDenied => ErrorKind::PermissionDenied,
        _ => ErrorKind::IoError,
    }
}

/// What the caller is to do next.
#[derive(Debug, Clone, PartialEq, Eq)]
pub enum Action {
    /// Nothing outside: go on at once, with `Reply::Done`.
    Continue,
    /// Read a variable; the reply is its value, or why there is none.
    ReadVariable { variable: VariableId },
    /// Write a variable with these flags and this payload.
    WriteVariable { variable: VariableId, flags: u32, payload: Vec<u8> },
    /// Run this program again with privilege, and wait for it to end.
    RunElevated { escalation: Escalation },
    /// Ask the platform to reboot.
    RequestReboot { call: RebootCall },
    /// The run is over: in success without a failure, abnormally with one.
    Exit { failure: Option<Failure> },
}

/// An action, with its payload and texts as sequences.
pub enum ActionView {
    Continue,
    ReadVariable { variable: VariableId },
    WriteVariable { variable: VariableId, flags: u32, payload: Seq<u8> },
    RunElevated { escalation: EscalationView },
    RequestReboot { call: RebootCall },
    Exit { failure: Option<Failure> },
}

impl ActionView {
    /// The action is a write of `variable`.
    pub open spec fn is_write_of(self, variable: VariableId) -> bool {
        self matches ActionView::WriteVariable { variable: written, .. } && written == variable
    }
}

impl View for Action {
    type V = ActionView;

    open spec fn view(&self) -> ActionView {
        match *self {
            Action::Continue => ActionView::Continue,
            Action::ReadVariable { variable } => ActionView::ReadVariable { variable },
            Action::WriteVariable { variable, flags, payload } => ActionView::WriteVariable {
                variable,
                flags,
                payload: payload@,
            },
            Action::RunElevated { escalation } => ActionView::RunElevated {
                escalation: escalation@,
            },
            Action::RequestReboot { call } => ActionView::RequestReboot { call },
            Action::Exit { failure } => ActionView::Exit { failure },
        }
    }
}

} // verus!
