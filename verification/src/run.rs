//! Whole runs of the machine against a platform, and what holds of every such run.

use crate::efi::{
    spec_next_value, spec_set, spec_setting_line, spec_success_line, spec_would_create_line,
    spec_would_set_line, VariableId, DRY_RUN_FLAG, PRIVILEGED_FLAG,
};
use crate::failure::{ErrorKind, Failure, Stage};
use crate::platform::{spec_store_error, ActionView, ReplyView};
use crate::reboot::spec_reboot_lines;
use crate::string::{lemma_round_trip, utf16le_bytes, utf16le_text};
use crate::switch::{spec_already_set_line, spec_step, RequestView, StateView, TransitionView};
use vstd::prelude::*;

verus! {

/// How a platform answers during one run: one reply to each thing that a run may ask.
pub struct Platform {
    /// To reading the target variable.
    pub target: ReplyView,
    /// To reading the backup variable.
    pub backup: ReplyView,
    /// To writing the backup variable.
    pub backup_write: ReplyView,
    /// To writing the target variable.
    pub target_write: ReplyView,
    /// To running this program again with privilege.
    pub escalation: ReplyView,
    /// To the reboot request.
    pub reboot: ReplyView,
}

/// The platform's reply to an action.
pub open spec fn answer(platform: Platform, action: ActionView) -> ReplyView {
    match action {
        ActionView::Continue => ReplyView::Done,
        ActionView::ReadVariable { variable } => match variable {
            VariableId::Target => platform.target,
            VariableId::Backup => platform.backup,
        },
        ActionView::WriteVariable { variable, .. } => match variable {
            VariableId::Target => platform.target_write,
            VariableId::Backup => platform.backup_write,
        },
        ActionView::RunElevated { .. } => platform.escalation,
        ActionView::RequestReboot { .. } => platform.reboot,
        ActionView::Exit { .. } => ReplyView::Done,
    }
}

/// The steps that a caller takes from `state` with `reply` in hand, each action answered
/// by the platform, up to the step that exits; `limit` bounds their number.
pub open spec fn steps_from(
    request: RequestView,
    platform: Platform,
    state: StateView,
    reply: ReplyView,
    limit: nat,
) -> Seq<TransitionView>
    decreases limit,
{
    if limit == 0 {
        Seq::empty()
    } else {
        let transition = spec_step(request, state, reply);
        if transition.action is Exit {
            seq![transition]
        } else {
            seq![transition] + steps_from(
                request,
                platform,
                transition.next,
                answer(platform, transition.action),
                (limit - 1) as nat,
            )
        }
    }
}

/// The steps of a whole run. No run takes more than six.
pub open spec fn run(request: RequestView, platform: Platform) -> Seq<TransitionView> {
    steps_from(request, platform, StateView::Start, ReplyView::Done, 6)
}

/// How many of the steps from the `i`-th on have an action of the wanted kind.
pub open spec fn count_from(
    steps: Seq<TransitionView>,
    i: int,
    wanted: spec_fn(ActionView) -> bool,
) -> nat
    decreases steps.len() - i,
{
    if i < 0 || i >= steps.len() {
        0
    } else {
        (if wanted(steps[i].action) {
            1nat
        } else {
            0nat
        }) + count_from(steps, i + 1, wanted)
    }
}

/// How often the steps write `variable`.
pub open spec fn writes(steps: Seq<TransitionView>, variable: VariableId) -> nat {
    count_from(steps, 0, |action: ActionView| action.is_write_of(variable))
}

/// How often the steps request a reboot.
pub open spec fn reboot_requests(steps: Seq<TransitionView>) -> nat {
    count_from(steps, 0, |action: ActionView| action is RequestReboot)
}

/// How often the steps run this program again with privilege.
pub open spec fn escalations(steps: Seq<TransitionView>) -> nat {
    count_from(steps, 0, |action: ActionView| action is RunElevated)
}

/// The lines that the steps from the `i`-th on show, in order.
pub open spec fn lines_from(steps: Seq<TransitionView>, i: int) -> Seq<Seq<char>>
    decreases steps.len() - i,
{
    if i < 0 || i >= steps.len() {
        Seq::empty()
    } else {
        steps[i].lines + lines_from(steps, i + 1)
    }
}

/// All lines that the steps show, in order.
pub open spec fn shown(steps: Seq<TransitionView>) -> Seq<Seq<char>> {
    lines_from(steps, 0)
}

/// How the run ended: the failure of its last step's exit, none after success.
pub open spec fn outcome(steps: Seq<TransitionView>) -> Option<Failure> {
    match steps.last().action {
        ActionView::Exit { failure } => failure,
        _ => None,
    }
}

/// Where the target variable already holds the desired value, the run reaches `NoOp`,
/// writes no variable and starts no privileged run. Outside a dry run it requests the
/// reboot exactly once, and ends as that request does; a dry run requests none and ends in
/// success.
pub proof fn lemma_no_change_run(request: RequestView, platform: Platform, flags: u32)
    requires
        platform.target == (ReplyView::Value {
            payload: utf16le_bytes(spec_next_value(request.target_os)),
            flags,
        }),
    ensures
        run(request, platform).len() == 5,
        run(request, platform)[2].next is NoOp,
        writes(run(request, platform), VariableId::Target) == 0,
        writes(run(request, platform), VariableId::Backup) == 0,
        escalations(run(request, platform)) == 0,
        reboot_requests(run(request, platform)) == if request.dry_run {
            0nat
        } else {
            1nat
        },
        outcome(run(request, platform)) == if request.dry_run || platform.reboot is Done {
            None
        } else {
            Some(Failure { stage: Stage::Reboot, kind: ErrorKind::RebootRequestFailure })
        },
{
    lemma_round_trip(spec_next_value(request.target_os));
    reveal_with_fuel(steps_from, 7);
    reveal_with_fuel(count_from, 7);
}

/// Where the target variable has to change and the run has privilege, outside a dry run:
/// the backup variable is written exactly once, with the payload and flags that the target
/// had, and before anything else is written. Only if that write succeeds is the target
/// written, exactly once, with the desired value and the same flags; if it fails, the
/// target is not written, and the run fails at that stage. The reboot is requested once,
/// and only after both writes have succeeded.
pub proof fn lemma_apply_run(
    request: RequestView,
    platform: Platform,
    payload: Seq<u8>,
    flags: u32,
)
    requires
        platform.target == (ReplyView::Value { payload, flags }),
        utf16le_text(payload) is Some,
        payload != utf16le_bytes(spec_next_value(request.target_os)),
        request.privileged,
        !request.dry_run,
    ensures
        run(request, platform).len() >= 4,
        run(request, platform)[2].action == (ActionView::WriteVariable {
            variable: VariableId::Backup,
            flags,
            payload,
        }),
        writes(run(request, platform), VariableId::Backup) == 1,
        escalations(run(request, platform)) == 0,
        platform.backup_write is Done ==> run(request, platform)[3].action
            == (ActionView::WriteVariable {
            variable: VariableId::Target,
            flags,
            payload: utf16le_bytes(spec_next_value(request.target_os)),
        }) && writes(run(request, platform), VariableId::Target) == 1,
        !(platform.backup_write is Done) ==> writes(run(request, platform), VariableId::Target)
            == 0 && outcome(run(request, platform)) == Some(
            Failure { stage: Stage::WriteBackup, kind: spec_store_error(platform.backup_write) },
        ),
        platform.backup_write is Done && !(platform.target_write is Done) ==> outcome(
            run(request, platform),
        ) == Some(
            Failure { stage: Stage::WriteTarget, kind: spec_store_error(platform.target_write) },
        ),
        reboot_requests(run(request, platform)) == if platform.backup_write is Done
            && platform.target_write is Done {
            1nat
        } else {
            0nat
        },
        platform.backup_write is Done && platform.target_write is Done ==> outcome(
            run(request, platform),
        ) == if platform.reboot is Done {
            None
        } else {
            Some(Failure { stage: Stage::Reboot, kind: ErrorKind::RebootRequestFailure })
        },
{
    reveal_with_fuel(steps_from, 7);
    reveal_with_fuel(count_from, 7);
}

/// Where the target variable has to change and the run has no privilege: this program is
/// run again with privilege exactly once, for the same target and with the mark of
/// privilege, and with the dry-run flag exactly where this run has it. The run itself
/// writes no variable and requests no reboot, and it ends as the privileged run does.
pub proof fn lemma_escalate_run(
    request: RequestView,
    platform: Platform,
    payload: Seq<u8>,
    flags: u32,
)
    requires
        platform.target == (ReplyView::Value { payload, flags }),
        utf16le_text(payload) is Some,
        payload != utf16le_bytes(spec_next_value(request.target_os)),
        !request.privileged,
    ensures
        run(request, platform).len() == 4,
        run(request, platform)[2].action == (ActionView::RunElevated {
            escalation: spec_set(request.dry_run, request.target_os),
        }),
        spec_set(request.dry_run, request.target_os).args[0] == request.target_os,
        spec_set(request.dry_run, request.target_os).args[1] == PRIVILEGED_FLAG@,
        spec_set(request.dry_run, request.target_os).args.len() == if request.dry_run {
            3nat
        } else {
            2nat
        },
        request.dry_run ==> spec_set(request.dry_run, request.target_os).args[2] == DRY_RUN_FLAG@,
        escalations(run(request, platform)) == 1,
        writes(run(request, platform), VariableId::Target) == 0,
        writes(run(request, platform), VariableId::Backup) == 0,
        reboot_requests(run(request, platform)) == 0,
        outcome(run(request, platform)) == if platform.escalation is Done {
            None
        } else {
            Some(Failure { stage: Stage::Escalate, kind: ErrorKind::EscalationFailure })
        },
{
    reveal_with_fuel(steps_from, 7);
    reveal_with_fuel(count_from, 7);
}

/// A run fails before it decides anything where the target variable cannot be read, or
/// where what it holds is no text: then nothing is written, no privileged run is started
/// and no reboot is requested.
pub proof fn lemma_unreadable_run(request: RequestView, platform: Platform)
    requires
        platform.target matches ReplyView::Value { payload, .. } ==> utf16le_text(payload) is None,
    ensures
        run(request, platform).len() == 2,
        outcome(run(request, platform)) == Some(
            match platform.target {
                ReplyView::Value { .. } => Failure {
                    stage: Stage::DecodeTarget,
                    kind: ErrorKind::InvalidEncoding,
                },
                _ => Failure { stage: Stage::ReadTarget, kind: spec_store_error(platform.target) },
            },
        ),
        writes(run(request, platform), VariableId::Target) == 0,
        writes(run(request, platform), VariableId::Backup) == 0,
        escalations(run(request, platform)) == 0,
        reboot_requests(run(request, platform)) == 0,
{
    reveal_with_fuel(steps_from, 7);
    reveal_with_fuel(count_from, 7);
}

/// In a dry run no step asks for a write or for a reboot, wherever the run stands and
/// whatever reply it gets.
pub proof fn lemma_dry_step(request: RequestView, state: StateView, reply: ReplyView)
    requires
        request.dry_run,
    ensures
        !(spec_step(request, state, reply).action is WriteVariable),
        !(spec_step(request, state, reply).action is RequestReboot),
{
}

/// In a dry run none of the steps from any state asks for a write or for a reboot.
pub proof fn lemma_dry_steps(
    request: RequestView,
    platform: Platform,
    state: StateView,
    reply: ReplyView,
    limit: nat,
)
    requires
        request.dry_run,
    ensures
        forall|i: int|
            0 <= i < steps_from(request, platform, state, reply, limit).len() ==> {
                let step = #[trigger] steps_from(request, platform, state, reply, limit)[i];
                !(step.action is WriteVariable) && !(step.action is RequestReboot)
            },
    decreases limit,
{
    if limit > 0 {
        let transition = spec_step(request, state, reply);
        lemma_dry_step(request, state, reply);
        if !(transition.action is Exit) {
            lemma_dry_steps(
                request,
                platform,
                transition.next,
                answer(platform, transition.action),
                (limit - 1) as nat,
            );
        }
    }
}

/// Steps of which none has an action of the wanted kind count as none.
pub proof fn lemma_count_none(
    steps: Seq<TransitionView>,
    i: int,
    wanted: spec_fn(ActionView) -> bool,
)
    requires
        forall|j: int| 0 <= j < steps.len() ==> !wanted(#[trigger] steps[j].action),
    ensures
        count_from(steps, i, wanted) == 0,
    decreases steps.len() - i,
{
    if 0 <= i < steps.len() {
        lemma_count_none(steps, i + 1, wanted);
    }
}

/// A dry run, whatever the target variable holds and however the platform answers, writes
/// no variable and requests no reboot.
pub proof fn lemma_dry_run(request: RequestView, platform: Platform)
    requires
        request.dry_run,
    ensures
        writes(run(request, platform), VariableId::Target) == 0,
        writes(run(request, platform), VariableId::Backup) == 0,
        reboot_requests(run(request, platform)) == 0,
{
    let steps = run(request, platform);
    lemma_dry_steps(request, platform, StateView::Start, ReplyView::Done, 6);
    lemma_count_none(steps, 0, |action: ActionView| action.is_write_of(VariableId::Target));
    lemma_count_none(steps, 0, |action: ActionView| action.is_write_of(VariableId::Backup));
    lemma_count_none(steps, 0, |action: ActionView| action is RequestReboot);
}

/// A dry run that finds the desired value in place says so, announces the reboot, and
/// shows the reboot request that it does not make.
pub proof fn lemma_dry_no_change_shown(request: RequestView, platform: Platform, flags: u32)
    requires
        request.dry_run,
        platform.target == (ReplyView::Value {
            payload: utf16le_bytes(spec_next_value(request.target_os)),
            flags,
        }),
    ensures
        shown(run(request, platform)) == seq![
            spec_already_set_line(spec_next_value(request.target_os)),
        ] + spec_reboot_lines(request.reboot, true),
        outcome(run(request, platform)) == None::<Failure>,
{
    lemma_round_trip(spec_next_value(request.target_os));
    reveal_with_fuel(steps_from, 7);
    reveal_with_fuel(lines_from, 7);
    assert(shown(run(request, platform)) =~= seq![
        spec_already_set_line(spec_next_value(request.target_os)),
    ] + spec_reboot_lines(request.reboot, true));
}

/// A dry run with privilege that finds another value in place shows, in the order of the
/// writes that it does not make: what the backup variable would be set to and what it
/// holds, or that it would be created where it does not exist; what the target variable
/// would be set to; and the reboot request.
pub proof fn lemma_dry_apply_shown(
    request: RequestView,
    platform: Platform,
    payload: Seq<u8>,
    flags: u32,
)
    requires
        request.dry_run,
        request.privileged,
        platform.target == (ReplyView::Value { payload, flags }),
        utf16le_text(payload) is Some,
        payload != utf16le_bytes(spec_next_value(request.target_os)),
    ensures
        platform.backup is Value && utf16le_text(platform.backup->payload) is Some ==> shown(
            run(request, platform),
        ) == seq![
            spec_setting_line(),
            spec_would_set_line(
                VariableId::Backup,
                utf16le_text(payload)->0,
                utf16le_text(platform.backup->payload)->0,
            ),
            spec_would_set_line(
                VariableId::Target,
                spec_next_value(request.target_os),
                utf16le_text(payload)->0,
            ),
            spec_success_line(spec_next_value(request.target_os), utf16le_text(payload)->0),
        ] + spec_reboot_lines(request.reboot, true) && outcome(run(request, platform))
            == None::<Failure>,
        platform.backup is NotFound ==> shown(run(request, platform)) == seq![
            spec_setting_line(),
            spec_would_create_line(VariableId::Backup, utf16le_text(payload)->0),
            spec_would_set_line(
                VariableId::Target,
                spec_next_value(request.target_os),
                utf16le_text(payload)->0,
            ),
            spec_success_line(spec_next_value(request.target_os), utf16le_text(payload)->0),
        ] + spec_reboot_lines(request.reboot, true) && outcome(run(request, platform))
            == None::<Failure>,
        platform.backup is Value && utf16le_text(platform.backup->payload) is None ==> outcome(
            run(request, platform),
        ) == Some(
            Failure { stage: Stage::DecodeBackup, kind: ErrorKind::InvalidEncoding },
        ),
        !(platform.backup is Value) && !(platform.backup is NotFound) ==> outcome(
            run(request, platform),
        ) == Some(Failure { stage: Stage::ReadBackup, kind: spec_store_error(platform.backup) }),
{
    reveal_with_fuel(steps_from, 7);
    reveal_with_fuel(lines_from, 7);
    let steps = run(request, platform);
    let prev = utf16le_text(payload)->0;
    let next = spec_next_value(request.target_os);
    if platform.backup is Value && utf16le_text(platform.backup->payload) is Some {
        assert(shown(steps) =~= seq![
            spec_setting_line(),
            spec_would_set_line(
                VariableId::Backup,
                prev,
                utf16le_text(platform.backup->payload)->0,
            ),
            spec_would_set_line(VariableId::Target, next, prev),
            spec_success_line(next, prev),
        ] + spec_reboot_lines(request.reboot, true));
    }
    if platform.backup is NotFound {
        assert(shown(steps) =~= seq![
            spec_setting_line(),
            spec_would_create_line(VariableId::Backup, prev),
            spec_would_set_line(VariableId::Target, next, prev),
            spec_success_line(next, prev),
        ] + spec_reboot_lines(request.reboot, true));
    }
}

/// Nothing is tried again: in every run each variable is written at most once, this
/// program is run again at most once, and the reboot is requested at most once.
pub proof fn lemma_nothing_twice(request: RequestView, platform: Platform)
    ensures
        writes(run(request, platform), VariableId::Backup) <= 1,
        writes(run(request, platform), VariableId::Target) <= 1,
        escalations(run(request, platform)) <= 1,
        reboot_requests(run(request, platform)) <= 1,
{
    reveal_with_fuel(steps_from, 7);
    reveal_with_fuel(count_from, 7);
}

/// A run with privilege never starts another: the mark of privilege ends the escalation.
/// A run without privilege never writes a variable.
pub proof fn lemma_privilege(request: RequestView, platform: Platform)
    ensures
        request.privileged ==> escalations(run(request, platform)) == 0,
        !request.privileged ==> writes(run(request, platform), VariableId::Backup) == 0 && writes(
            run(request, platform),
            VariableId::Target,
        ) == 0,
{
    reveal_with_fuel(steps_from, 7);
    reveal_with_fuel(count_from, 7);
}

/// In every run the target variable is written only with the desired value and the flags
/// that it had, and only in the step after the one that wrote the backup variable, with
/// success, with the payload and flags that the target had.
pub proof fn lemma_backup_before_target(request: RequestView, platform: Platform)
    ensures
        forall|i: int|
            0 <= i < run(request, platform).len() && (#[trigger] run(
                request,
                platform,
            )[i]).action.is_write_of(VariableId::Target) ==> {
                &&& platform.target is Value
                &&& platform.backup_write is Done
                &&& i >= 1
                &&& run(request, platform)[i - 1].action == (ActionView::WriteVariable {
                    variable: VariableId::Backup,
                    flags: platform.target->flags,
                    payload: platform.target->payload,
                })
                &&& run(request, platform)[i].action == (ActionView::WriteVariable {
                    variable: VariableId::Target,
                    flags: platform.target->flags,
                    payload: utf16le_bytes(spec_next_value(request.target_os)),
                })
            },
{
    reveal_with_fuel(steps_from, 7);
}

/// Every run ends: it takes at most six steps, and its last step, and no other, exits.
pub proof fn lemma_run_ends(request: RequestView, platform: Platform)
    ensures
        1 <= run(request, platform).len() <= 6,
        run(request, platform).last().action is Exit,
        forall|i: int|
            0 <= i < run(request, platform).len() - 1 ==> !(#[trigger] run(
                request,
                platform,
            )[i].action is Exit),
{
    reveal_with_fuel(steps_from, 7);
}

} // verus!
