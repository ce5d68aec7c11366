//! The run as a state machine: read the target variable, decide, store or escalate, reboot.
//!
//! `step` is the whole machine. Entering a state gives the caller an action; the reply to
//! it is what the step out of that state takes.

use crate::efi::{
    next_value, set_privileged, spec_next_value, spec_set, spec_set_privileged, ApplyNext,
    ApplyNextView, ApplyPhase, ApplyStep, ApplyStepView, VariableId,
};
use crate::failure::{ErrorKind, Failure, Stage};
use crate::platform::{
    no_lines, spec_store_error, store_error, Action, ActionView, Reply, ReplyView,
};
use crate::reboot::{reboot, spec_reboot_lines, RebootCall};
use crate::string::{
    encode_utf16le, from_utf16le, lemma_round_trip, lemma_text_encodes_back, utf16le_bytes,
    utf16le_text,
};
use vstd::prelude::*;
use vstd::string::StringExecFns;

verus! {

/// What a run is asked to do.
#[derive(Debug, Clone, PartialEq, Eq)]
pub struct Request {
    /// The identifier of the boot entry to select.
    pub target_os: String,
    /// Say what would be done, and do none of it.
    pub dry_run: bool,
    /// The run has the right to write firmware variables. Only a run that escalated sets
    /// this, on the run that it starts.
    pub privileged: bool,
    /// The way in which this platform is asked to reboot.
    pub reboot: RebootCall,
}

/// A request, with its text as a sequence.
pub struct RequestView {
    pub target_os: Seq<char>,
    pub dry_run: bool,
    pub privileged: bool,
    pub reboot: RebootCall,
}

impl View for Request {
    type V = RequestView;

    open spec fn view(&self) -> RequestView {
        RequestView {
            target_os: self.target_os@,
            dry_run: self.dry_run,
            privileged: self.privileged,
            reboot: self.reboot,
        }
    }
}

/// What to do about the target variable.
#[derive(Debug, Clone, Copy, PartialEq, Eq, Structural)]
pub enum Decision {
    /// It holds the desired value already.
    NoChange,
    /// It has to change, and this run may not write it.
    Escalate,
    /// It has to change, and this run may write it.
    Apply,
}

/// The decision: no change where the payload is the desired value byte for byte; else to
/// apply with privilege, to escalate without.
pub open spec fn spec_decide(privileged: bool, target_os: Seq<char>, payload: Seq<u8>) -> Decision {
    if payload == utf16le_bytes(spec_next_value(target_os)) {
        Decision::NoChange
    } else if privileged {
        Decision::Apply
    } else {
        Decision::Escalate
    }
}

/// Whether two byte strings are the same.
fn bytes_equal(a: &[u8], b: &[u8]) -> (same: bool)
    ensures
        same == (a@ == b@),
{
    if a.len() != b.len() {
        return false;
    }
    let mut i: usize = 0;
    while i < a.len()
        invariant
            a@.len() == b@.len(),
            i <= a@.len(),
            forall|j: int| 0 <= j < i ==> a@[j] == b@[j],
        decreases a@.len() - i,
    {
        if a[i] != b[i] {
            return false;
        }
        i = i + 1;
    }
    assert(a@ =~= b@);
    true
}

/// Decides what to do about the target variable, given what it holds.
pub fn decide(privileged: bool, target_os: &str, payload: &[u8]) -> (decision: Decision)
    ensures
        decision == spec_decide(privileged, target_os@, payload@),
{
    let next = next_value(target_os);
    let desired = encode_utf16le(next.as_str());
    if bytes_equal(payload, desired.as_slice()) {
        Decision::NoChange
    } else if privileged {
        Decision::Apply
    } else {
        Decision::Escalate
    }
}

/// Where a run stands.
#[derive(Debug, Clone, PartialEq, Eq)]
pub enum State {
    /// Nothing was done yet.
    Start,
    /// The target variable is being read.
    Read,
    /// The target variable was read and decoded: its payload, its flags, its text.
    Decide { payload: Vec<u8>, flags: u32, prev: String },
    /// The target variable holds the desired value.
    NoOp,
    /// The privileged run was started.
    Escalate,
    /// The value is being stored; `phase` says how far that has come.
    Apply { phase: ApplyPhase, payload: Vec<u8>, flags: u32, prev: String },
    /// The reboot was requested; in a dry run, described.
    Reboot,
    /// The run ended in success.
    End,
    /// The run ended in this failure.
    Fail { failure: Failure },
}

/// A state, with its payload and text as sequences.
pub enum StateView {
    Start,
    Read,
    Decide { payload: Seq<u8>, flags: u32, prev: Seq<char> },
    NoOp,
    Escalate,
    Apply { phase: ApplyPhase, payload: Seq<u8>, flags: u32, prev: Seq<char> },
    Reboot,
    End,
    Fail { failure: Failure },
}

impl View for State {
    type V = StateView;

    open spec fn view(&self) -> StateView {
        match *self {
            State::Start => StateView::Start,
            State::Read => StateView::Read,
            State::Decide { payload, flags, prev } => StateView::Decide {
                payload: payload@,
                flags,
                prev: prev@,
            },
            State::NoOp => StateView::NoOp,
            State::Escalate => StateView::Escalate,
            State::Apply { phase, payload, flags, prev } => StateView::Apply {
                phase,
                payload: payload@,
                flags,
                prev: prev@,
            },
            State::Reboot => StateView::Reboot,
            State::End => StateView::End,
            State::Fail { failure } => StateView::Fail { failure },
        }
    }
}

impl StateView {
    /// The text that a state carries is the text of the payload that it carries.
    pub open spec fn consistent(self) -> bool {
        match self {
            StateView::Decide { payload, prev, .. } => utf16le_text(payload) == Some(prev),
            StateView::Apply { payload, prev, .. } => utf16le_text(payload) == Some(prev),
            _ => true,
        }
    }
}

/// One step of a run: the state entered, the lines to show, and the action to perform.
#[derive(Debug, Clone, PartialEq, Eq)]
pub struct Transition {
    pub next: State,
    pub lines: Vec<String>,
    pub action: Action,
}

/// A transition, with its parts as sequences.
pub struct TransitionView {
    pub next: StateView,
    pub lines: Seq<Seq<char>>,
    pub action: ActionView,
}

impl View for Transition {
    type V = TransitionView;

    open spec fn view(&self) -> TransitionView {
        TransitionView { next: self.next@, lines: self.lines.deep_view(), action: self.action@ }
    }
}

/// The line that says that nothing has to change.
pub open spec fn spec_already_set_line(value: Seq<char>) -> Seq<char> {
    "EFI variable `"@ + VariableId::Target.spec_name() + "` already set to '"@ + value + "'"@
}

/// The line that says that nothing has to change.
pub fn already_set_line(value: &str) -> (line: String)
    ensures
        line@ == spec_already_set_line(value@),
{
    let mut line = "EFI variable `".to_owned();
    line.append(VariableId::Target.name());
    line.append("` already set to '");
    line.append(value);
    line.append("'");
    line
}

/// The step into `Fail`.
pub open spec fn spec_fail(lines: Seq<Seq<char>>, failure: Failure) -> TransitionView {
    TransitionView {
        next: StateView::Fail { failure },
        lines,
        action: ActionView::Exit { failure: Some(failure) },
    }
}

/// The step into `End`.
pub open spec fn spec_end() -> TransitionView {
    TransitionView {
        next: StateView::End,
        lines: Seq::empty(),
        action: ActionView::Exit { failure: None },
    }
}

/// The step into `Reboot`, after `lines`: the reboot is announced and requested; a dry run
/// describes the request and goes on without it.
pub open spec fn spec_enter_reboot(request: RequestView, lines: Seq<Seq<char>>) -> TransitionView {
    TransitionView {
        next: StateView::Reboot,
        lines: lines + spec_reboot_lines(request.reboot, request.dry_run),
        action: if request.dry_run {
            ActionView::Continue
        } else {
            ActionView::RequestReboot { call: request.reboot }
        },
    }
}

/// The step that a step of storing the value amounts to: its need becomes the action, the
/// phase of that need the state; once stored, the run goes on to reboot.
pub open spec fn spec_apply_transition(
    request: RequestView,
    payload: Seq<u8>,
    flags: u32,
    prev: Seq<char>,
    step: ApplyStepView,
) -> TransitionView {
    match step.next {
        ApplyNextView::ReadBackup => TransitionView {
            next: StateView::Apply { phase: ApplyPhase::Backup, payload, flags, prev },
            lines: step.lines,
            action: ActionView::ReadVariable { variable: VariableId::Backup },
        },
        ApplyNextView::WriteBackup { flags: write_flags, payload: write_payload } => {
            TransitionView {
                next: StateView::Apply { phase: ApplyPhase::Backup, payload, flags, prev },
                lines: step.lines,
                action: ActionView::WriteVariable {
                    variable: VariableId::Backup,
                    flags: write_flags,
                    payload: write_payload,
                },
            }
        },
        ApplyNextView::WriteTarget { flags: write_flags, payload: write_payload } => {
            TransitionView {
                next: StateView::Apply { phase: ApplyPhase::Target, payload, flags, prev },
                lines: step.lines,
                action: ActionView::WriteVariable {
                    variable: VariableId::Target,
                    flags: write_flags,
                    payload: write_payload,
                },
            }
        },
        ApplyNextView::Described => TransitionView {
            next: StateView::Apply { phase: ApplyPhase::Target, payload, flags, prev },
            lines: step.lines,
            action: ActionView::Continue,
        },
        ApplyNextView::Applied => spec_enter_reboot(request, step.lines),
        ApplyNextView::Failed { failure } => spec_fail(step.lines, failure),
    }
}

/// The machine.
///
/// From `Start` the target variable is read. Its payload is decoded, and a payload that
/// is no text ends the run. The decision then leads to `NoOp`, `Escalate` or `Apply`.
/// `NoOp` and a finished `Apply` go on to `Reboot`, and a granted reboot request to `End`.
/// `Escalate` goes to `End` once the privileged run has succeeded: that run reboots, this
/// one does not. A reply other than the awaited one is the failure of the stage, and
/// leads to `Fail`. `End` and `Fail` stay as they are.
pub open spec fn spec_step(
    request: RequestView,
    state: StateView,
    reply: ReplyView,
) -> TransitionView {
    match state {
        StateView::Start => TransitionView {
            next: StateView::Read,
            lines: Seq::empty(),
            action: ActionView::ReadVariable { variable: VariableId::Target },
        },
        StateView::Read => match reply {
            ReplyView::Value { payload, flags } => match utf16le_text(payload) {
                Some(prev) => TransitionView {
                    next: StateView::Decide { payload, flags, prev },
                    lines: Seq::empty(),
                    action: ActionView::Continue,
                },
                None => spec_fail(
                    Seq::empty(),
                    Failure { stage: Stage::DecodeTarget, kind: ErrorKind::InvalidEncoding },
                ),
            },
            _ => spec_fail(
                Seq::empty(),
                Failure { stage: Stage::ReadTarget, kind: spec_store_error(reply) },
            ),
        },
        StateView::Decide { payload, flags, prev } => match spec_decide(
            request.privileged,
            request.target_os,
            payload,
        ) {
            Decision::NoChange => TransitionView {
                next: StateView::NoOp,
                lines: seq![spec_already_set_line(spec_next_value(request.target_os))],
                action: ActionView::Continue,
            },
            Decision::Escalate => TransitionView {
                next: StateView::Escalate,
                lines: Seq::empty(),
                action: ActionView::RunElevated {
                    escalation: spec_set(request.dry_run, request.target_os),
                },
            },
            Decision::Apply => spec_apply_transition(
                request,
                payload,
                flags,
                prev,
                spec_set_privileged(
                    request.dry_run,
                    flags,
                    payload,
                    prev,
                    spec_next_value(request.target_os),
                    ApplyPhase::Begin,
                    reply,
                ),
            ),
        },
        StateView::NoOp => spec_enter_reboot(request, Seq::empty()),
        StateView::Escalate => match reply {
            ReplyView::Done => spec_end(),
            _ => spec_fail(
                Seq::empty(),
                Failure { stage: Stage::Escalate, kind: ErrorKind::EscalationFailure },
            ),
        },
        StateView::Apply { phase, payload, flags, prev } => spec_apply_transition(
            request,
            payload,
            flags,
            prev,
            spec_set_privileged(
                request.dry_run,
                flags,
                payload,
                prev,
                spec_next_value(request.target_os),
                phase,
                reply,
            ),
        ),
        StateView::Reboot => match reply {
            ReplyView::Done => spec_end(),
            _ => spec_fail(
                Seq::empty(),
                Failure { stage: Stage::Reboot, kind: ErrorKind::RebootRequestFailure },
            ),
        },
        StateView::End => spec_end(),
        StateView::Fail { failure } => spec_fail(Seq::empty(), failure),
    }
}

/// The step into `Fail`.
fn fail(lines: Vec<String>, failure: Failure) -> (transition: Transition)
    ensures
        transition@ == spec_fail(lines.deep_view(), failure),
{
    Transition {
        next: State::Fail { failure },
        lines,
        action: Action::Exit { failure: Some(failure) },
    }
}

/// The step into `Fail`, with nothing to show.
fn fail_at(stage: Stage, kind: ErrorKind) -> (transition: Transition)
    ensures
        transition@ == spec_fail(Seq::empty(), Failure { stage, kind }),
{
    let lines = no_lines();
    fail(lines, Failure { stage, kind })
}

/// The step into `End`.
fn end() -> (transition: Transition)
    ensures
        transition@ == spec_end(),
{
    let lines = no_lines();
    Transition { next: State::End, lines, action: Action::Exit { failure: None } }
}

/// The step into `Reboot`, after `lines`.
fn enter_reboot(request: &Request, lines: Vec<String>) -> (transition: Transition)
    ensures
        transition@ == spec_enter_reboot(request@, lines.deep_view()),
        request.dry_run ==> transition.action is Continue,
{
    let mut lines = lines;
    let ghost before = lines.deep_view();
    let mut plan = reboot(request.reboot, request.dry_run);
    let ghost after = plan.lines.deep_view();
    lines.append(&mut plan.lines);
    assert(lines.deep_view() =~= before + after);
    let action = match plan.call {
        Some(call) => Action::RequestReboot { call },
        None => Action::Continue,
    };
    Transition { next: State::Reboot, lines, action }
}

/// The step that a step of storing the value amounts to.
fn apply_transition(
    request: &Request,
    payload: Vec<u8>,
    flags: u32,
    prev: String,
    step: ApplyStep,
) -> (transition: Transition)
    ensures
        transition@ == spec_apply_transition(request@, payload@, flags, prev@, step@),
        transition.action is WriteVariable ==> step.next is WriteBackup || step.next is WriteTarget,
        request.dry_run ==> !(transition.action is RequestReboot),
{
    let ApplyStep { lines, next } = step;
    match next {
        ApplyNext::ReadBackup => Transition {
            next: State::Apply { phase: ApplyPhase::Backup, payload, flags, prev },
            lines,
            action: Action::ReadVariable { variable: VariableId::Backup },
        },
        ApplyNext::WriteBackup { flags: write_flags, payload: write_payload } => Transition {
            next: State::Apply { phase: ApplyPhase::Backup, payload, flags, prev },
            lines,
            action: Action::WriteVariable {
                variable: VariableId::Backup,
                flags: write_flags,
                payload: write_payload,
            },
        },
        ApplyNext::WriteTarget { flags: write_flags, payload: write_payload } => Transition {
            next: State::Apply { phase: ApplyPhase::Target, payload, flags, prev },
            lines,
            action: Action::WriteVariable {
                variable: VariableId::Target,
                flags: write_flags,
                payload: write_payload,
            },
        },
        ApplyNext::Described => Transition {
            next: State::Apply { phase: ApplyPhase::Target, payload, flags, prev },
            lines,
            action: Action::Continue,
        },
        ApplyNext::Applied => enter_reboot(request, lines),
        ApplyNext::Failed { failure } => fail(lines, failure),
    }
}

/// Takes one step of a run: given where the run stands and what came of its last action,
/// says where it stands next, what to show, and what to do.
///
/// The first call passes `State::Start`, and any reply. The run is over once the action
/// is `Action::Exit`. A dry run is never told to write a variable or to request a reboot.
pub fn step(request: &Request, state: State, reply: Reply) -> (transition: Transition)
    ensures
        transition@ == spec_step(request@, state@, reply@),
        request.dry_run ==> !(transition.action is WriteVariable) && !(transition.action
            is RequestReboot),
{
    match state {
        State::Start => {
            let lines = no_lines();
            Transition {
                next: State::Read,
                lines,
                action: Action::ReadVariable { variable: VariableId::Target },
            }
        },
        State::Read => match reply {
            Reply::Value { payload, flags } => match from_utf16le(payload.as_slice()) {
                Ok(prev) => {
                    let lines = no_lines();
                    Transition {
                        next: State::Decide { payload, flags, prev },
                        lines,
                        action: Action::Continue,
                    }
                },
                Err(_) => fail_at(Stage::DecodeTarget, ErrorKind::InvalidEncoding),
            },
            _ => fail_at(Stage::ReadTarget, store_error(&reply)),
        },
        State::Decide { payload, flags, prev } => {
            match decide(request.privileged, request.target_os.as_str(), payload.as_slice()) {
                Decision::NoChange => {
                    let next = next_value(request.target_os.as_str());
                    let mut lines: Vec<String> = Vec::new();
                    lines.push(already_set_line(next.as_str()));
                    assert(lines.deep_view() =~= seq![
                        spec_already_set_line(spec_next_value(request.target_os@)),
                    ]);
                    Transition { next: State::NoOp, lines, action: Action::Continue }
                },
                Decision::Escalate => {
                    let lines = no_lines();
                    let escalation = crate::efi::set(request.dry_run, request.target_os.as_str());
                    Transition {
                        next: State::Escalate,
                        lines,
                        action: Action::RunElevated { escalation },
                    }
                },
                Decision::Apply => {
                    let next = next_value(request.target_os.as_str());
                    let apply = set_privileged(
                        request.dry_run,
                        flags,
                        payload.as_slice(),
                        prev.as_str(),
                        next.as_str(),
                        ApplyPhase::Begin,
                        &reply,
                    );
                    apply_transition(request, payload, flags, prev, apply)
                },
            }
        },
        State::NoOp => {
            let lines = no_lines();
            enter_reboot(request, lines)
        },
        State::Escalate => match reply {
            Reply::Done => end(),
            _ => fail_at(Stage::Escalate, ErrorKind::EscalationFailure),
        },
        State::Apply { phase, payload, flags, prev } => {
            let next = next_value(request.target_os.as_str());
            let apply = set_privileged(
                request.dry_run,
                flags,
                payload.as_slice(),
                prev.as_str(),
                next.as_str(),
                phase,
                &reply,
            );
            apply_transition(request, payload, flags, prev, apply)
        },
        State::Reboot => match reply {
            Reply::Done => end(),
            _ => fail_at(Stage::Reboot, ErrorKind::RebootRequestFailure),
        },
        State::End => end(),
        State::Fail { failure } => {
            let lines = no_lines();
            fail(lines, failure)
        },
    }
}

/// A step from a consistent state leads to a consistent state. `Start` is one, so every
/// state of a run is.
pub proof fn lemma_step_consistent(request: RequestView, state: StateView, reply: ReplyView)
    requires
        state.consistent(),
    ensures
        spec_step(request, state, reply).next.consistent(),
{
}

/// Comparing the payload with the desired bytes decides as comparing its text with the
/// desired text does: nothing has to change exactly where the two texts are the same.
pub proof fn lemma_decide_by_text(privileged: bool, target_os: Seq<char>, payload: Seq<u8>)
    requires
        utf16le_text(payload) is Some,
    ensures
        spec_decide(privileged, target_os, payload) is NoChange <==> utf16le_text(payload) == Some(
            spec_next_value(target_os),
        ),
{
    lemma_round_trip(spec_next_value(target_os));
    lemma_text_encodes_back(payload);
}

} // verus!
