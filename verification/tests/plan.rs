use boot_switch::efi::{
    child_reply, set_privileged, success_line, would_create_line, would_set_line, ApplyNext, ApplyPhase,
    ApplyStep, Escalation, VariableId, BACKUP_PREVIOUSBOOT_NAME, DRY_RUN_FLAG,
    ELEVATION_LAUNCHER, PRIVILEGED_FLAG, REFIND_PREVIOUSBOOT_NAME,
};
use boot_switch::failure::{ErrorKind, Failure, Stage};
use boot_switch::platform::{store_error, Reply};
use boot_switch::reboot::{
    reboot, RebootCall, RebootPlan, LOGOUT_PROMPT_DESTINATION, LOGOUT_PROMPT_INTERFACE,
    LOGOUT_PROMPT_METHOD, LOGOUT_PROMPT_PATH, RESTART_FLAG, RESTART_FLAG_NAME,
    RESTART_PRIMITIVE, RESTART_REASON_MAJOR, RESTART_REASON_MAJOR_NAME, RESTART_REASON_MINOR,
    RESTART_REASON_MINOR_NAME,
};
use boot_switch::string::encode_utf16le;

const FLAGS: u32 = 0x7;

fn apply(dry_run: bool, phase: ApplyPhase, reply: Reply) -> ApplyStep {
    let prev = "windows \0";
    set_privileged(dry_run, FLAGS, &encode_utf16le(prev), prev, "linux \0", phase, &reply)
}

fn failed(stage: Stage, kind: ErrorKind) -> ApplyStep {
    ApplyStep { lines: vec![], next: ApplyNext::Failed { failure: Failure { stage, kind } } }
}

#[test]
fn variable_identities() {
    assert_eq!(REFIND_PREVIOUSBOOT_NAME, "PreviousBoot-36d08fa7-cf0b-42f5-8f14-68df73ed3740");
    assert_eq!(
        BACKUP_PREVIOUSBOOT_NAME,
        "PreviousBootBackup-2bd809f0-cba2-4074-bbe8-56a655f07262"
    );
    assert_eq!(VariableId::Target.name(), REFIND_PREVIOUSBOOT_NAME);
    assert_eq!(VariableId::Backup.name(), BACKUP_PREVIOUSBOOT_NAME);
}

#[test]
fn escalation_forwards_target_and_marks_privilege() {
    assert_eq!(
        boot_switch::efi::set(false, "linux"),
        Escalation {
            launcher: "/usr/bin/sudo".to_string(),
            args: vec!["linux".to_string(), "--privileged".to_string()],
        }
    );
}

#[test]
fn escalation_forwards_dry_run() {
    assert_eq!(
        boot_switch::efi::set(true, "Microsoft EFI boot"),
        Escalation {
            launcher: ELEVATION_LAUNCHER.to_string(),
            args: vec![
                "Microsoft EFI boot".to_string(),
                PRIVILEGED_FLAG.to_string(),
                DRY_RUN_FLAG.to_string(),
            ],
        }
    );
    assert_eq!(DRY_RUN_FLAG, "--dry-run");
}

#[test]
fn child_succeeds_with_exit_code_zero_only() {
    assert_eq!(child_reply(Some(0)), Reply::Done);
    assert_eq!(child_reply(Some(1)), Reply::Failed);
    assert_eq!(child_reply(Some(-1)), Reply::Failed);
    assert_eq!(child_reply(Some(255)), Reply::Failed);
    assert_eq!(child_reply(None), Reply::Failed);
}

#[test]
fn apply_begins_with_the_backup_write() {
    assert_eq!(
        apply(false, ApplyPhase::Begin, Reply::Done),
        ApplyStep {
            lines: vec!["Setting EFI vars...".to_string()],
            next: ApplyNext::WriteBackup { flags: FLAGS, payload: encode_utf16le("windows \0") },
        }
    );
}

#[test]
fn apply_writes_the_target_after_the_backup() {
    assert_eq!(
        apply(false, ApplyPhase::Backup, Reply::Done),
        ApplyStep {
            lines: vec![],
            next: ApplyNext::WriteTarget { flags: FLAGS, payload: encode_utf16le("linux \0") },
        }
    );
}

#[test]
fn apply_is_done_after_the_target_write() {
    assert_eq!(
        apply(false, ApplyPhase::Target, Reply::Done),
        ApplyStep {
            lines: vec![format!(
                "Success: EFI variable `{}` set to 'linux \0' (was 'windows \0')",
                REFIND_PREVIOUSBOOT_NAME
            )],
            next: ApplyNext::Applied,
        }
    );
}

#[test]
fn apply_failed_backup_write_ends_it() {
    assert_eq!(
        apply(false, ApplyPhase::Backup, Reply::PermissionDenied),
        failed(Stage::WriteBackup, ErrorKind::PermissionDenied)
    );
    assert_eq!(
        apply(false, ApplyPhase::Backup, Reply::Failed),
        failed(Stage::WriteBackup, ErrorKind::IoError)
    );
    assert_eq!(
        apply(false, ApplyPhase::Backup, Reply::NotFound),
        failed(Stage::WriteBackup, ErrorKind::NotFound)
    );
}

#[test]
fn apply_failed_target_write_ends_it() {
    assert_eq!(
        apply(false, ApplyPhase::Target, Reply::PermissionDenied),
        failed(Stage::WriteTarget, ErrorKind::PermissionDenied)
    );
    assert_eq!(
        apply(false, ApplyPhase::Target, Reply::Failed),
        failed(Stage::WriteTarget, ErrorKind::IoError)
    );
}

#[test]
fn dry_apply_begins_with_reading_the_backup() {
    assert_eq!(
        apply(true, ApplyPhase::Begin, Reply::Done),
        ApplyStep { lines: vec!["Setting EFI vars...".to_string()], next: ApplyNext::ReadBackup }
    );
}

#[test]
fn dry_apply_shows_what_the_backup_holds() {
    let reply = Reply::Value { payload: encode_utf16le("debian \0"), flags: 0x3 };
    assert_eq!(
        apply(true, ApplyPhase::Backup, reply),
        ApplyStep {
            lines: vec![format!(
                "[dry run] set EFI variable `{}` to 'windows \0' (was 'debian \0')",
                BACKUP_PREVIOUSBOOT_NAME
            )],
            next: ApplyNext::Described,
        }
    );
}

#[test]
fn dry_apply_would_create_a_missing_backup() {
    assert_eq!(
        apply(true, ApplyPhase::Backup, Reply::NotFound),
        ApplyStep {
            lines: vec![format!(
                "[dry run] create EFI variable `{}` with value 'windows \0'",
                BACKUP_PREVIOUSBOOT_NAME
            )],
            next: ApplyNext::Described,
        }
    );
}

#[test]
fn dry_apply_fails_on_an_unreadable_backup() {
    assert_eq!(
        apply(true, ApplyPhase::Backup, Reply::PermissionDenied),
        failed(Stage::ReadBackup, ErrorKind::PermissionDenied)
    );
    assert_eq!(
        apply(true, ApplyPhase::Backup, Reply::Failed),
        failed(Stage::ReadBackup, ErrorKind::IoError)
    );
}

#[test]
fn dry_apply_fails_on_a_backup_that_is_no_text() {
    assert_eq!(
        apply(true, ApplyPhase::Backup, Reply::Value { payload: vec![0x61], flags: FLAGS }),
        failed(Stage::DecodeBackup, ErrorKind::InvalidEncoding)
    );
    assert_eq!(
        apply(true, ApplyPhase::Backup, Reply::Value { payload: vec![0x00, 0xdc], flags: FLAGS }),
        failed(Stage::DecodeBackup, ErrorKind::InvalidEncoding)
    );
}

#[test]
fn dry_apply_describes_the_target_write() {
    assert_eq!(
        apply(true, ApplyPhase::Target, Reply::Done),
        ApplyStep {
            lines: vec![
                format!(
                    "[dry run] set EFI variable `{}` to 'linux \0' (was 'windows \0')",
                    REFIND_PREVIOUSBOOT_NAME
                ),
                format!(
                    "Success: EFI variable `{}` set to 'linux \0' (was 'windows \0')",
                    REFIND_PREVIOUSBOOT_NAME
                ),
            ],
            next: ApplyNext::Applied,
        }
    );
}

#[test]
fn dry_apply_never_asks_for_a_write() {
    let replies = [
        Reply::Done,
        Reply::NotFound,
        Reply::PermissionDenied,
        Reply::Failed,
        Reply::Value { payload: encode_utf16le("x \0"), flags: 1 },
        Reply::Value { payload: vec![1], flags: 1 },
    ];
    for phase in [ApplyPhase::Begin, ApplyPhase::Backup, ApplyPhase::Target] {
        for reply in replies.iter() {
            let step = apply(true, phase, reply.clone());
            assert!(!matches!(
                step.next,
                ApplyNext::WriteBackup { .. } | ApplyNext::WriteTarget { .. }
            ));
        }
    }
}

#[test]
fn lines_of_storing() {
    assert_eq!(
        would_set_line(VariableId::Target, "b", "a"),
        "[dry run] set EFI variable `PreviousBoot-36d08fa7-cf0b-42f5-8f14-68df73ed3740` to 'b' (was 'a')"
    );
    assert_eq!(
        would_create_line(VariableId::Backup, "a"),
        "[dry run] create EFI variable `PreviousBootBackup-2bd809f0-cba2-4074-bbe8-56a655f07262` with value 'a'"
    );
    assert_eq!(
        success_line("b", "a"),
        "Success: EFI variable `PreviousBoot-36d08fa7-cf0b-42f5-8f14-68df73ed3740` set to 'b' (was 'a')"
    );
}

#[test]
fn store_errors_by_reply() {
    assert_eq!(store_error(&Reply::NotFound), ErrorKind::NotFound);
    assert_eq!(store_error(&Reply::PermissionDenied), ErrorKind::PermissionDenied);
    assert_eq!(store_error(&Reply::Failed), ErrorKind::IoError);
    assert_eq!(store_error(&Reply::Done), ErrorKind::IoError);
    assert_eq!(store_error(&Reply::Value { payload: vec![], flags: 0 }), ErrorKind::IoError);
}

#[test]
fn reboot_makes_the_call() {
    assert_eq!(
        reboot(RebootCall::SessionPrompt, false),
        RebootPlan { lines: vec!["Rebooting...".to_string()], call: Some(RebootCall::SessionPrompt) }
    );
    assert_eq!(
        reboot(RebootCall::SystemRestart, false),
        RebootPlan { lines: vec!["Rebooting...".to_string()], call: Some(RebootCall::SystemRestart) }
    );
}

#[test]
fn dry_reboot_describes_the_call() {
    assert_eq!(
        reboot(RebootCall::SessionPrompt, true),
        RebootPlan {
            lines: vec![
                "Rebooting...".to_string(),
                "[dry run] DBUS org.kde.LogoutPrompt /LogoutPrompt promptReboot".to_string(),
            ],
            call: None,
        }
    );
    assert_eq!(
        reboot(RebootCall::SystemRestart, true),
        RebootPlan {
            lines: vec![
                "Rebooting...".to_string(),
                "[dry run] ExitWindowsEx(EWX_REBOOT, SHTDN_REASON_MAJOR_OTHER | SHTDN_REASON_MINOR_OTHER)"
                    .to_string(),
            ],
            call: None,
        }
    );
}

#[test]
fn reboot_description_is_made_of_the_call() {
    assert_eq!(
        RebootCall::SessionPrompt.description(),
        format!(
            "DBUS {} {} {}",
            LOGOUT_PROMPT_DESTINATION, LOGOUT_PROMPT_PATH, LOGOUT_PROMPT_METHOD
        )
    );
    assert_eq!(LOGOUT_PROMPT_INTERFACE, "org.kde.LogoutPrompt");
}

#[test]
fn restart_description_names_the_flag_and_the_reasons_of_the_call() {
    let description = RebootCall::SystemRestart.description();
    assert_eq!(
        description,
        "ExitWindowsEx(EWX_REBOOT, SHTDN_REASON_MAJOR_OTHER | SHTDN_REASON_MINOR_OTHER)"
    );
    assert_eq!(
        description,
        format!(
            "{}({}, {} | {})",
            RESTART_PRIMITIVE,
            RESTART_FLAG_NAME,
            RESTART_REASON_MAJOR_NAME,
            RESTART_REASON_MINOR_NAME
        )
    );
    assert!(!description.contains("RESTARTAPPS"));
}

#[test]
fn restart_is_called_with_reboot_and_no_listed_reason() {
    // EWX_REBOOT is 2, EWX_RESTARTAPPS would be 0x40; both reasons "other" are 0
    assert_eq!(RESTART_FLAG, 0x2);
    assert_eq!(RESTART_FLAG & 0x40, 0);
    assert_eq!(RESTART_REASON_MAJOR | RESTART_REASON_MINOR, 0);
}

#[test]
fn failure_messages() {
    let cases = [
        (Stage::ReadTarget, ErrorKind::NotFound, "failed to read previous EFI variable value: variable not found"),
        (Stage::DecodeTarget, ErrorKind::InvalidEncoding, "failed to parse value as utf16le: invalid utf-16: lone surrogate found"),
        (Stage::ReadBackup, ErrorKind::IoError, "failed to read backup EFI variable value: i/o error"),
        (Stage::DecodeBackup, ErrorKind::InvalidEncoding, "failed to parse backup value as utf16le: invalid utf-16: lone surrogate found"),
        (Stage::WriteBackup, ErrorKind::PermissionDenied, "failed to write backup EFI variable: permission denied"),
        (Stage::WriteTarget, ErrorKind::IoError, "failed to write EFI variable: i/o error"),
        (Stage::Escalate, ErrorKind::EscalationFailure, "failed to run as privileged: the privileged run did not succeed"),
        (Stage::Reboot, ErrorKind::RebootRequestFailure, "reboot failed: the reboot request did not succeed"),
    ];
    for (stage, kind, message) in cases {
        assert_eq!(Failure { stage, kind }.message(), message);
        assert_eq!(format!("{}: {}", stage.context(), kind.cause()), message);
    }
}
