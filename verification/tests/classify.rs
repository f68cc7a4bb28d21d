use true_tick::classify::{is_storage_failure_event, native_outcome, numeric_detail, NativeOutcome};
use true_tick::classify::{
    diagnostic_outcome, diagnostic_phase, diagnostic_source, DiagnosticOutcome, DiagnosticPhase,
    DiagnosticSource,
};

#[test]
fn event_names_map_to_their_lifecycle_phase_in_priority_order() {
    assert_eq!(diagnostic_phase("tray.handoff.policy"), DiagnosticPhase::Handoff);
    assert_eq!(diagnostic_phase("policy.decide"), DiagnosticPhase::Decide);
    assert_eq!(diagnostic_phase("duration.timer"), DiagnosticPhase::Timer);
    assert_eq!(diagnostic_phase("tray.quit"), DiagnosticPhase::Shutdown);
    assert_eq!(diagnostic_phase("timer.query"), DiagnosticPhase::Observe);
    assert_eq!(diagnostic_phase("timer.acquire"), DiagnosticPhase::Acquire);
    assert_eq!(diagnostic_phase("tray.stop"), DiagnosticPhase::Release);
    assert_eq!(diagnostic_phase("verification.result"), DiagnosticPhase::Verify);
    assert_eq!(diagnostic_phase("config.save"), DiagnosticPhase::Persist);
    assert_eq!(diagnostic_phase("tray.status.publish"), DiagnosticPhase::Render);
    assert_eq!(diagnostic_phase("misc"), DiagnosticPhase::Complete);
}

#[test]
fn outcomes_read_name_and_details_ignoring_ascii_case() {
    assert_eq!(
        diagnostic_outcome("ipc.request", "result=TimedOut"),
        DiagnosticOutcome::TimedOut
    );
    assert_eq!(
        diagnostic_outcome("policy.power_reconciliation.suppressed", ""),
        DiagnosticOutcome::Suppressed
    );
    assert_eq!(
        diagnostic_outcome("tray.command", "command=CANCEL"),
        DiagnosticOutcome::Cancelled
    );
    assert_eq!(
        diagnostic_outcome("ownership", "state=uncertain"),
        DiagnosticOutcome::Unverified
    );
    assert_eq!(
        diagnostic_outcome("native.CloseHandle", "result=Failed"),
        DiagnosticOutcome::Failed
    );
    assert_eq!(
        diagnostic_outcome("handoff", "state=pending"),
        DiagnosticOutcome::InProgress
    );
    assert_eq!(diagnostic_outcome("tray", "result=ok"), DiagnosticOutcome::Completed);
    assert_eq!(diagnostic_outcome("time", "out"), DiagnosticOutcome::Completed);
}

#[test]
fn sources_follow_name_fragments_and_native_prefixes() {
    assert_eq!(diagnostic_source("policy.power"), DiagnosticSource::PowerEvent);
    assert_eq!(diagnostic_source("startup.register"), DiagnosticSource::Startup);
    assert_eq!(diagnostic_source("pause.begin"), DiagnosticSource::Pause);
    assert_eq!(diagnostic_source("resume.ac"), DiagnosticSource::Resume);
    assert_eq!(diagnostic_source("tray.handoff"), DiagnosticSource::Handoff);
    assert_eq!(diagnostic_source("duration.timer"), DiagnosticSource::Timer);
    assert_eq!(diagnostic_source("tray.shutdown"), DiagnosticSource::Shutdown);
    assert_eq!(diagnostic_source("policy.decide"), DiagnosticSource::Policy);
    assert_eq!(diagnostic_source("ownership.query"), DiagnosticSource::Ownership);
    assert_eq!(diagnostic_source("native.CloseHandle"), DiagnosticSource::Native);
    assert_eq!(diagnostic_source("timer.query"), DiagnosticSource::Native);
    assert_eq!(diagnostic_source("tray.command"), DiagnosticSource::TrayCommand);
    assert_eq!(diagnostic_source("x.native.y"), DiagnosticSource::Internal);
}

#[test]
fn numeric_details_take_the_first_parsable_value_of_the_key() {
    assert_eq!(numeric_detail("result=false raw_status=5", "raw_status"), Some(5));
    assert_eq!(numeric_detail("raw_status=x raw_status=-7", "raw_status"), Some(-7));
    assert_eq!(numeric_detail("  raw_status=+12\tother=1", "raw_status"), Some(12));
    assert_eq!(numeric_detail("raw_status_ex=3", "raw_status"), None);
    assert_eq!(numeric_detail("raw_status=", "raw_status"), None);
    assert_eq!(
        numeric_detail("value=9223372036854775807", "value"),
        Some(i64::MAX)
    );
    assert_eq!(
        numeric_detail("value=-9223372036854775808", "value"),
        Some(i64::MIN)
    );
    assert_eq!(numeric_detail("value=9223372036854775808", "value"), None);
    assert_eq!(numeric_detail("a=b=3 a=4", "a"), Some(4));
    assert_eq!(numeric_detail("", "a"), None);
}

#[test]
fn native_outcomes_split_nt_status_from_win32_errors() {
    assert_eq!(
        native_outcome(
            "timer.NtSetTimerResolution",
            "raw_status=-1073741822 requested_hns=5000 selected_hns=5000 effective_hns=4966"
        ),
        NativeOutcome {
            ntstatus: Some(-1073741822),
            win32_last_error: None,
            requested_hns: Some(5000),
            selected_hns: Some(5000),
            effective_hns: Some(4966),
        }
    );
    assert_eq!(
        native_outcome("native.CloseHandle", "result=false raw_status=6"),
        NativeOutcome {
            ntstatus: None,
            win32_last_error: Some(6),
            requested_hns: None,
            selected_hns: None,
            effective_hns: None,
        }
    );
    assert_eq!(
        native_outcome("tray.GetLastError", "raw_status=5"),
        NativeOutcome {
            ntstatus: None,
            win32_last_error: Some(5),
            requested_hns: None,
            selected_hns: None,
            effective_hns: None,
        }
    );
    assert_eq!(
        native_outcome("tray.publish", "raw_error=-1 requested_hns=-1"),
        NativeOutcome {
            ntstatus: None,
            win32_last_error: None,
            requested_hns: Some(u64::MAX),
            selected_hns: None,
            effective_hns: None,
        }
    );
    assert_eq!(
        native_outcome("tray.publish", "raw_status=3"),
        NativeOutcome {
            ntstatus: None,
            win32_last_error: None,
            requested_hns: None,
            selected_hns: None,
            effective_hns: None,
        }
    );
}

#[test]
fn storage_failures_are_failed_or_suppressed_storage_events() {
    assert!(is_storage_failure_event("storage.write_suppressed", DiagnosticOutcome::Suppressed));
    assert!(is_storage_failure_event("storage.purge", DiagnosticOutcome::Failed));
    assert!(!is_storage_failure_event("storage.purge", DiagnosticOutcome::Completed));
    assert!(!is_storage_failure_event("storage.append", DiagnosticOutcome::TimedOut));
    assert!(!is_storage_failure_event("tray.storage.append", DiagnosticOutcome::Failed));
    assert!(!is_storage_failure_event("storage", DiagnosticOutcome::Failed));
}
